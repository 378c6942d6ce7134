use wlsctx::name::{has_socket_suffix, split_at_marker, strip_socket_suffixes};

#[test]
fn suffix_detected() {
    assert!(has_socket_suffix("app@1.socket"));
    assert!(has_socket_suffix(".socket"));
    assert!(!has_socket_suffix("app@1"));
    assert!(!has_socket_suffix("sock"));
    assert!(!has_socket_suffix("app.socket2"));
}

#[test]
fn strips_single_suffix() {
    assert_eq!(strip_socket_suffixes("app@1.socket"), "app@1");
}

#[test]
fn strips_repeated_suffix() {
    assert_eq!(strip_socket_suffixes("app@1.socket.socket"), "app@1");
}

#[test]
fn keeps_name_without_suffix() {
    assert_eq!(strip_socket_suffixes("app@1"), "app@1");
    assert_eq!(strip_socket_suffixes(""), "");
}

#[test]
fn splits_at_marker() {
    let (before, after) = split_at_marker("org.example.App@1234").unwrap();
    assert_eq!(before, "org.example.App");
    assert_eq!(after, "1234");
}

#[test]
fn splits_at_first_marker_only() {
    let (before, after) = split_at_marker("a@b@c").unwrap();
    assert_eq!(before, "a");
    assert_eq!(after, "b@c");
}

#[test]
fn marker_at_edges() {
    let (before, after) = split_at_marker("@inst").unwrap();
    assert_eq!(before, "");
    assert_eq!(after, "inst");
    let (before, after) = split_at_marker("app@").unwrap();
    assert_eq!(before, "app");
    assert_eq!(after, "");
}

#[test]
fn no_marker_gives_none() {
    assert!(split_at_marker("plainname").is_none());
    assert!(split_at_marker("").is_none());
}
