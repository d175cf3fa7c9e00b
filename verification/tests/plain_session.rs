//! Behavior of the plaintext session machine, driven the way the runtime
//! drives it: commands in, replies out, the mean of a handed-out batch
//! computed in floating point here.

use session_server::session::{PlainSession, PlainStep};
use session_server::session_common::{SessionRequestCommand, SessionResponseStatus};

fn command(text: &str) -> SessionRequestCommand {
    SessionRequestCommand::SessionCommand(String::from(text))
}

/// Runs one command; when the machine hands out a batch, reduces it exactly
/// as the runtime does and returns the final reply pieces.
fn drive(
    session: &mut PlainSession,
    sid: &str,
    cmd: &SessionRequestCommand,
) -> (SessionResponseStatus, bool, String, f64, bool) {
    match session.handle_command(sid, cmd) {
        PlainStep::Reply {
            status,
            message,
            terminate,
        } => (
            status,
            message.status,
            message.status_message,
            f64::from_bits(message.value_bits),
            terminate,
        ),
        PlainStep::Mean { values } => {
            let mut sum: f64 = 0.;
            for v in &values {
                sum += f64::from_bits(*v);
            }
            let mean = sum / (values.len() as f64);
            let message = PlainSession::mean_reply(sid, mean.to_bits());
            (
                SessionResponseStatus::SessionOk,
                message.status,
                message.status_message,
                f64::from_bits(message.value_bits),
                false,
            )
        }
    }
}

#[test]
fn observe_then_mean_is_exact_and_clears() {
    let mut s = PlainSession::new();
    let values = [1.5f64, 2.25, 3.75, 0.5, 10.0];
    for v in values {
        let cmd = command(&format!("{{\"action\":\"encrypt\",\"value\":{}}}", v));
        let (status, ok, _msg, echoed, terminate) = drive(&mut s, "sid", &cmd);
        assert!(matches!(status, SessionResponseStatus::SessionOk));
        assert!(ok);
        assert_eq!(echoed, v);
        assert!(!terminate);
    }
    let mut expected: f64 = 0.;
    for v in values {
        expected += v;
    }
    expected /= values.len() as f64;
    let (_, ok, _, mean, _) = drive(&mut s, "sid", &command("{\"action\":\"mean\",\"value\":0}"));
    assert!(ok);
    assert_eq!(mean, expected);
    // The batch was consumed: a second mean reports no data, value zero.
    let (_, ok2, msg2, mean2, _) = drive(&mut s, "sid", &command("{\"action\":\"mean\",\"value\":0}"));
    assert!(ok2);
    assert_eq!(mean2, 0.0);
    assert_eq!(msg2, "[sid] Mean action received, no data");
}

#[test]
fn mean_before_any_observation_succeeds_with_zero() {
    let mut s = PlainSession::new();
    let (status, ok, _msg, value, terminate) =
        drive(&mut s, "sid", &command("{\"action\":\"mean\",\"value\":0}"));
    assert!(matches!(status, SessionResponseStatus::SessionOk));
    assert!(ok);
    assert_eq!(value, 0.0);
    assert!(!terminate);
}

#[test]
fn malformed_payload_never_terminates() {
    let mut s = PlainSession::new();
    for bad in [
        "not json at all",
        "{\"action\":\"encrypt\"}",
        "{\"value\":1.0}",
        "{\"action\":7,\"value\":1.0}",
        "{\"action\":\"encrypt\",\"value\":\"x\"}",
        "[1,2,3]",
    ] {
        let (status, ok, msg, _value, terminate) = drive(&mut s, "sid", &command(bad));
        assert!(matches!(status, SessionResponseStatus::SessionOk));
        assert!(!ok);
        assert_eq!(msg, "[sid] Failed to json decode request's message field");
        assert!(!terminate);
    }
    // The next well-formed command on the same session still succeeds.
    let (_, ok, _, echoed, _) =
        drive(&mut s, "sid", &command("{\"action\":\"encrypt\",\"value\":4.0}"));
    assert!(ok);
    assert_eq!(echoed, 4.0);
    let (_, ok, _, mean, _) = drive(&mut s, "sid", &command("{\"action\":\"mean\",\"value\":0}"));
    assert!(ok);
    assert_eq!(mean, 4.0);
}

#[test]
fn unknown_action_fails_without_terminating() {
    let mut s = PlainSession::new();
    let (status, ok, msg, _value, terminate) =
        drive(&mut s, "sid", &command("{\"action\":\"median\",\"value\":1.0}"));
    assert!(matches!(status, SessionResponseStatus::SessionOk));
    assert!(!ok);
    assert_eq!(msg, "[sid] Unknown action");
    assert!(!terminate);
}

#[test]
fn shutdown_action_is_terminal() {
    let mut s = PlainSession::new();
    let (status, ok, msg, _value, terminate) =
        drive(&mut s, "sid", &command("{\"action\":\"shutdown\",\"value\":0}"));
    assert!(matches!(status, SessionResponseStatus::SessionExit));
    assert!(ok);
    assert_eq!(msg, "[sid] Shutdown action received");
    assert!(terminate);
}

#[test]
fn stop_command_is_terminal() {
    let mut s = PlainSession::new();
    let (status, ok, msg, _value, terminate) =
        drive(&mut s, "sid", &SessionRequestCommand::SessionStop);
    assert!(matches!(status, SessionResponseStatus::SessionExit));
    assert!(ok);
    assert_eq!(msg, "[sid] Stopping session");
    assert!(terminate);
}

#[test]
fn fifty_observations_are_neither_lost_nor_duplicated() {
    let mut s = PlainSession::new();
    let mut sum: f64 = 0.;
    for i in 1..=50 {
        let v = i as f64;
        sum += v;
        let cmd = command(&format!("{{\"action\":\"encrypt\",\"value\":{}}}", v));
        let (_, ok, _, _, _) = drive(&mut s, "sid", &cmd);
        assert!(ok);
    }
    // The handed-out batch is exactly the 50 observations, in order.
    match s.handle_command("sid", &command("{\"action\":\"mean\",\"value\":0}")) {
        PlainStep::Mean { values } => {
            assert_eq!(values.len(), 50);
            for (i, bits) in values.iter().enumerate() {
                assert_eq!(f64::from_bits(*bits), (i + 1) as f64);
            }
            let mut s2: f64 = 0.;
            for bits in &values {
                s2 += f64::from_bits(*bits);
            }
            assert_eq!(s2 / 50.0, sum / 50.0);
            assert_eq!(s2 / 50.0, 25.5);
        }
        PlainStep::Reply { .. } => panic!("a non-empty mean must hand out the batch"),
    }
}

#[test]
fn end_to_end_plaintext_scenario() {
    // Create a plaintext session; its init handshake always succeeds.
    let (status, message) = PlainSession::init_reply();
    assert!(matches!(status, SessionResponseStatus::SessionOk));
    assert!(message.status);
    assert_eq!(message.status_message, "Session Initialized");
    let mut s = PlainSession::new();
    let (_, ok, _, v1, _) =
        drive(&mut s, "sid", &command("{\"action\":\"encrypt\",\"value\":10.0}"));
    assert!(ok);
    assert_eq!(v1, 10.0);
    let (_, ok, _, v2, _) =
        drive(&mut s, "sid", &command("{\"action\":\"encrypt\",\"value\":20.0}"));
    assert!(ok);
    assert_eq!(v2, 20.0);
    let (_, ok, _, mean, _) = drive(&mut s, "sid", &command("{\"action\":\"mean\",\"value\":0}"));
    assert!(ok);
    assert_eq!(mean, 15.0);
}

#[test]
fn integer_values_are_accepted_as_doubles() {
    let mut s = PlainSession::new();
    let (_, ok, _, echoed, _) =
        drive(&mut s, "sid", &command("{\"action\":\"encrypt\",\"value\":3}"));
    assert!(ok);
    assert_eq!(echoed, 3.0);
}
