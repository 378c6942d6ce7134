use wlsctx::errors::StartupError;
use wlsctx::handshake::{
    finish_handshake, handshake_error, Handshake, HandshakeFailure, HandshakeRequest,
};

fn run_to_completion() -> (Handshake, Vec<HandshakeRequest>) {
    let mut h = Handshake::begin();
    let mut issued = Vec::new();
    while let Some(req) = h.next_request() {
        issued.push(req);
        h.advance();
    }
    (h, issued)
}

#[test]
fn requests_come_in_the_fixed_order() {
    let (h, issued) = run_to_completion();
    assert!(h.is_complete());
    assert_eq!(
        issued,
        vec![
            HandshakeRequest::CreateListener,
            HandshakeRequest::DestroyManager,
            HandshakeRequest::SetSandboxEngine,
            HandshakeRequest::SetAppId,
            HandshakeRequest::SetInstanceId,
            HandshakeRequest::Commit,
            HandshakeRequest::DestroyContext,
            HandshakeRequest::Roundtrip,
        ]
    );
}

#[test]
fn configuration_precedes_commit() {
    let (_, issued) = run_to_completion();
    let pos = |r: HandshakeRequest| issued.iter().position(|x| *x == r).unwrap();
    let engine = pos(HandshakeRequest::SetSandboxEngine);
    let app = pos(HandshakeRequest::SetAppId);
    let instance = pos(HandshakeRequest::SetInstanceId);
    let commit = pos(HandshakeRequest::Commit);
    assert!(engine < app && app < instance && instance < commit);
    // each configuration request appears exactly once
    for r in [
        HandshakeRequest::SetSandboxEngine,
        HandshakeRequest::SetAppId,
        HandshakeRequest::SetInstanceId,
        HandshakeRequest::Commit,
    ] {
        assert_eq!(issued.iter().filter(|x| **x == r).count(), 1);
    }
    // nothing but teardown and the final round-trip follows the commit
    for r in &issued[commit + 1..] {
        assert!(matches!(
            r,
            HandshakeRequest::DestroyContext | HandshakeRequest::Roundtrip
        ));
    }
}

#[test]
fn completed_handshake_yields_the_close_descriptor() {
    let (h, _) = run_to_completion();
    let close = finish_handshake(h, 9);
    assert_eq!(close.raw_fd(), 9);
    // ownership leaves the wrapper exactly once, at teardown
    assert_eq!(close.into_raw_fd(), 9);
}

#[test]
fn fresh_handshake_is_not_complete() {
    let h = Handshake::begin();
    assert!(!h.is_complete());
    assert_eq!(h.next_request(), Some(HandshakeRequest::CreateListener));
}

#[test]
fn failure_stages_map_to_their_errors() {
    assert_eq!(
        handshake_error(HandshakeFailure::ConnectionFailed),
        StartupError::Connection
    );
    assert_eq!(
        handshake_error(HandshakeFailure::ManagerNotAdvertised),
        StartupError::CapabilityMissing
    );
    assert_eq!(
        handshake_error(HandshakeFailure::PipeUnavailable),
        StartupError::Protocol
    );
    assert_eq!(
        handshake_error(HandshakeFailure::Rejected),
        StartupError::Protocol
    );
}
