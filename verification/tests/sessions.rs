use rinput::auth::{auth_decision, auth_reply, bytes_equal, AuthOutcome};
use rinput::buttons::ButtonId;
use rinput::decoder::{DeviceAction, StreamEnd};
use rinput::session::{run_session, SessionEnd};

#[test]
fn auth_accepts_the_exact_secret() {
    let o = auth_decision(b"abc", b"abc");
    assert_eq!(o, AuthOutcome::Accepted);
    assert_eq!(auth_reply(o), vec![0x00]);
}

#[test]
fn auth_accepts_an_empty_secret() {
    let o = auth_decision(b"", b"");
    assert_eq!(o, AuthOutcome::Accepted);
    assert_eq!(auth_reply(o), vec![0x00]);
}

#[test]
fn auth_rejects_a_differing_candidate() {
    let o = auth_decision(b"abd", b"abc");
    assert_eq!(o, AuthOutcome::Rejected);
    assert_eq!(auth_reply(o), vec![]);
}

#[test]
fn auth_rejects_a_candidate_of_other_length() {
    assert_eq!(auth_decision(b"ab", b"abc"), AuthOutcome::Rejected);
    assert_eq!(auth_decision(b"abcd", b"abc"), AuthOutcome::Rejected);
    assert_eq!(auth_decision(b"", b"abc"), AuthOutcome::Rejected);
}

#[test]
fn auth_reports_non_utf8_as_corruption() {
    let o = auth_decision(&[0xFF, 0xFE], b"abc");
    assert_eq!(o, AuthOutcome::Corrupted);
    assert_eq!(auth_reply(o), vec![]);
}

#[test]
fn byte_equality_is_exact() {
    assert!(bytes_equal(b"input", b"input"));
    assert!(!bytes_equal(b"input", b"inpet"));
    assert!(!bytes_equal(b"input", b"inputs"));
    assert!(bytes_equal(b"", b""));
}

#[test]
fn session_scenario_full_exchange() {
    let input = [
        0x03, b'a', b'b', b'c', // auth frame for password "abc"
        0x00, 0x0A, 0x00, 0x14, 0x00, // pointer frame x=10, y=20
        0x01, // press A
        0xFF, // release A
        0x7F, // opcode outside the protocol
    ];
    let r = run_session(&input, b"abc");
    assert_eq!(r.reply, vec![0x00]);
    assert_eq!(
        r.actions,
        vec![
            DeviceAction::PositionX(10),
            DeviceAction::PositionY(20),
            DeviceAction::Commit,
            DeviceAction::Press(ButtonId::A),
            DeviceAction::Commit,
            DeviceAction::Release(ButtonId::A),
            DeviceAction::Commit,
        ]
    );
    assert_eq!(r.end, SessionEnd::Streamed(StreamEnd::BadOpcode));
}

#[test]
fn session_rejected_performs_nothing() {
    let input = [0x03, b'a', b'b', b'd', 0x01];
    let r = run_session(&input, b"abc");
    assert_eq!(r.reply, vec![]);
    assert_eq!(r.actions, vec![]);
    assert_eq!(r.end, SessionEnd::AuthRejected);
}

#[test]
fn session_needs_a_complete_auth_frame() {
    let r = run_session(&[], b"abc");
    assert_eq!(r.end, SessionEnd::AuthTruncated);
    assert_eq!(r.reply, vec![]);

    let r = run_session(&[0x05, b'a', b'b'], b"abc");
    assert_eq!(r.end, SessionEnd::AuthTruncated);
    assert_eq!(r.reply, vec![]);
    assert_eq!(r.actions, vec![]);
}

#[test]
fn session_corrupted_password_closes_silently() {
    let r = run_session(&[0x02, 0xFF, 0xFE, 0x01], b"abc");
    assert_eq!(r.end, SessionEnd::AuthCorrupted);
    assert_eq!(r.reply, vec![]);
    assert_eq!(r.actions, vec![]);
}

#[test]
fn session_with_no_events_ends_exhausted() {
    let r = run_session(&[0x00], b"");
    assert_eq!(r.reply, vec![0x00]);
    assert_eq!(r.actions, vec![]);
    assert_eq!(r.end, SessionEnd::Streamed(StreamEnd::Exhausted));
}
