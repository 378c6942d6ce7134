use wlsctx::errors::StartupError;
use wlsctx::source::{bind_target, bound_socket, is_absolute_path, plan_bind, EntryKind};

#[test]
fn stale_socket_is_removed_first() {
    assert!(plan_bind(EntryKind::SocketFile));
}

#[test]
fn missing_entry_needs_no_removal() {
    assert!(!plan_bind(EntryKind::Missing));
}

#[test]
fn non_socket_entry_left_untouched() {
    assert!(!plan_bind(EntryKind::OtherFile));
}

#[test]
fn absolute_path_detected() {
    assert!(is_absolute_path("/run/user/1000/app.socket"));
    assert!(!is_absolute_path("app.socket"));
    assert!(!is_absolute_path(""));
}

#[test]
fn absolute_path_is_bound_exactly_as_given() {
    let target = bind_target(
        String::from("/run/user/1000/app.socket"),
        Some(String::from("/elsewhere/app.socket")),
    );
    assert_eq!(target.unwrap(), "/run/user/1000/app.socket");
}

#[test]
fn relative_path_takes_the_runtime_placement() {
    let target = bind_target(
        String::from("app.socket"),
        Some(String::from("/run/user/1000/app.socket")),
    );
    assert_eq!(target.unwrap(), "/run/user/1000/app.socket");
    assert!(bind_target(String::from("app.socket"), None).is_none());
}

#[test]
fn successful_bind_owns_the_descriptor() {
    let s = bound_socket(Some(4)).unwrap();
    assert_eq!(s.raw_fd(), 4);
    assert_eq!(s.into_raw_fd(), 4);
}

#[test]
fn failed_bind_is_a_bind_error() {
    assert_eq!(bound_socket(None).err().unwrap(), StartupError::Bind);
}
