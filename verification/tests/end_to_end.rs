use wlsctx::errors::{ActivationFailure, StartupError};
use wlsctx::handshake::{finish_handshake, Handshake, HandshakeRequest};
use wlsctx::mode::{select_mode, Mode};
use wlsctx::signals::{Guard, GuardAction, SIGTERM};
use wlsctx::source::{bound_socket, is_absolute_path, plan_bind, EntryKind};

/// The whole decision chain of one path-bound run, on concrete values:
/// engine "flatpak", app id "org.example.App", instance id "1234", bound at
/// /run/user/1000/app.socket over a stale socket file, then shut down by a
/// termination signal.
#[test]
fn flatpak_run_from_bind_to_shutdown() {
    // configuration: a listen path and no socket activation
    let mode = select_mode(false, Some(String::from("/run/user/1000/app.socket"))).unwrap();
    let path = match mode {
        Mode::PathBind(p) => p,
        Mode::Activated => panic!("expected the path-bind mode"),
    };
    assert_eq!(path, "/run/user/1000/app.socket");
    assert!(is_absolute_path(&path));

    // a stale socket sits at the path: it is removed, then the bind runs
    assert!(plan_bind(EntryKind::SocketFile));
    let listener = bound_socket(Some(4)).unwrap();
    assert_eq!(listener.raw_fd(), 4);

    // the identity of this run
    let engine = String::from("flatpak");
    let app_id = String::from("org.example.App");
    let instance_id = String::from("1234");
    assert_eq!(engine, "flatpak");
    assert_eq!(app_id, "org.example.App");
    assert_eq!(instance_id, "1234");

    // the handshake issues its full run of requests, configuration before
    // commit, and hands back the close descriptor to hold open
    let mut h = Handshake::begin();
    let mut seen_commit = false;
    while let Some(req) = h.next_request() {
        match req {
            HandshakeRequest::SetSandboxEngine
            | HandshakeRequest::SetAppId
            | HandshakeRequest::SetInstanceId => assert!(!seen_commit),
            HandshakeRequest::Commit => seen_commit = true,
            _ => {}
        }
        h.advance();
    }
    assert!(seen_commit);
    let close = finish_handshake(h, 7);
    assert_eq!(close.raw_fd(), 7);

    // the guard waits armed until the termination signal, then drains
    let mut guard = Guard::arm();
    assert!(guard.armed());
    assert_eq!(guard.on_signal(SIGTERM), GuardAction::Shutdown);
    assert!(!guard.armed());
    guard.finish();

    // teardown: the close descriptor leaves its owner exactly once
    assert_eq!(close.into_raw_fd(), 7);
}

#[test]
fn every_error_has_its_message() {
    let errors = [
        StartupError::Activation(ActivationFailure::NoDescriptor),
        StartupError::Activation(ActivationFailure::IdentityUnderivable),
        StartupError::Bind,
        StartupError::Connection,
        StartupError::CapabilityMissing,
        StartupError::Protocol,
        StartupError::SignalSetup,
    ];
    let mut messages: Vec<&str> = errors.iter().map(|e| e.describe()).collect();
    for m in &messages {
        assert!(!m.is_empty());
    }
    messages.dedup();
    assert_eq!(messages.len(), errors.len());
    assert_eq!(
        StartupError::Connection.describe(),
        "failed to connect to the display server"
    );
}
