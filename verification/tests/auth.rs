use limit_up::auth::{
    AuthAction, AuthState, AuthenticationOutcome, AuthenticationProtocol, Readiness,
    RACE_TIMEOUT_MS,
};
use limit_up::error::Error;
use limit_up::session::ElevationMode;

fn protocol(privileged: bool, secret: &str) -> AuthenticationProtocol {
    let mode = if privileged { ElevationMode::Root } else { ElevationMode::NeedSecret };
    AuthenticationProtocol::open(mode, secret.to_string()).0
}

fn seen(stdout: bool, stderr: bool) -> Readiness {
    Readiness { stdout, stderr }
}

#[test]
fn stdout_first_is_authenticated() {
    assert_eq!(seen(true, false).outcome(), AuthenticationOutcome::Authenticated);
}

#[test]
fn stderr_first_is_denied() {
    assert_eq!(seen(false, true).outcome(), AuthenticationOutcome::Denied);
}

#[test]
fn silence_is_a_timeout() {
    assert_eq!(seen(false, false).outcome(), AuthenticationOutcome::TimedOut);
    assert_eq!(Readiness::none().outcome(), AuthenticationOutcome::TimedOut);
}

#[test]
fn both_ready_goes_by_stdout() {
    assert_eq!(seen(true, true).outcome(), AuthenticationOutcome::Authenticated);
}

#[test]
fn denial_and_timeout_are_the_same_refusal() {
    assert!(AuthenticationOutcome::Authenticated.into_result().is_ok());
    assert!(matches!(AuthenticationOutcome::Denied.into_result(), Err(Error::PermissionDenied)));
    assert!(matches!(AuthenticationOutcome::TimedOut.into_result(), Err(Error::PermissionDenied)));
}

#[test]
fn unprivileged_run_sends_secret_then_probe() {
    let mut auth = protocol(false, "hunter2");
    assert_eq!(auth.state(), AuthState::Start);
    assert_eq!(auth.outcome(), None);
    match auth.advance(Readiness::none()) {
        AuthAction::SendSecret(line) => assert_eq!(line, "hunter2\n"),
        _ => panic!("the secret goes first"),
    }
    assert_eq!(auth.state(), AuthState::PasswordSent);
    match auth.advance(Readiness::none()) {
        AuthAction::SendProbe { line, timeout_ms } => {
            assert_eq!(line, "whoami\n");
            assert_eq!(timeout_ms, 5000);
            assert_eq!(timeout_ms, RACE_TIMEOUT_MS);
        }
        _ => panic!("the probe goes second"),
    }
    assert_eq!(auth.state(), AuthState::ProbeSent);
    match auth.advance(seen(true, false)) {
        AuthAction::Done(outcome) => assert_eq!(outcome, AuthenticationOutcome::Authenticated),
        _ => panic!("the race ends the protocol"),
    }
    assert_eq!(auth.state(), AuthState::Authenticated);
    assert_eq!(auth.outcome(), Some(AuthenticationOutcome::Authenticated));
}

#[test]
fn privileged_run_skips_the_secret() {
    let mut auth = protocol(true, "unused");
    assert!(matches!(auth.advance(Readiness::none()), AuthAction::SendProbe { .. }));
    assert_eq!(auth.state(), AuthState::ProbeSent);
}

#[test]
fn empty_secret_is_not_sent() {
    let mut auth = protocol(false, "");
    assert!(matches!(auth.advance(Readiness::none()), AuthAction::SendProbe { .. }));
    assert_eq!(auth.state(), AuthState::ProbeSent);
}

#[test]
fn readiness_before_the_probe_does_not_count() {
    let mut auth = protocol(false, "pw");
    assert!(matches!(auth.advance(seen(true, true)), AuthAction::SendSecret(_)));
    assert!(matches!(auth.advance(seen(false, true)), AuthAction::SendProbe { .. }));
    assert_eq!(auth.outcome(), None);
}

#[test]
fn outcome_is_final() {
    let mut auth = protocol(true, "");
    auth.advance(Readiness::none());
    assert!(matches!(
        auth.advance(seen(false, true)),
        AuthAction::Done(AuthenticationOutcome::Denied)
    ));
    assert_eq!(auth.state(), AuthState::Denied);
    assert!(matches!(
        auth.advance(seen(true, false)),
        AuthAction::Done(AuthenticationOutcome::Denied)
    ));
    assert_eq!(auth.state(), AuthState::Denied);

    let mut late = protocol(true, "");
    late.advance(Readiness::none());
    assert!(matches!(
        late.advance(Readiness::none()),
        AuthAction::Done(AuthenticationOutcome::TimedOut)
    ));
    assert_eq!(late.state(), AuthState::TimedOut);
    assert_eq!(late.outcome(), Some(AuthenticationOutcome::TimedOut));
}

#[test]
fn protocol_opens_the_shell_of_the_mode() {
    let (auth, plan) = AuthenticationProtocol::open(ElevationMode::NeedSecret, "pw".to_string());
    assert_eq!(plan.program, "su");
    assert!(auth.session().elevated());
    assert!(auth.session().stdin_open());
    assert!(!auth.session().unread());
    let (auth, plan) = AuthenticationProtocol::open(ElevationMode::Root, String::new());
    assert_eq!(plan.program, "sh");
    assert!(!auth.session().elevated());
}

#[test]
fn writes_follow_reads() {
    let mut auth = protocol(false, "pw");
    // the secret is written: its output is not read yet
    auth.advance(Readiness::none());
    assert!(auth.session().unread());
    // the error stream was drained, and the probe is written
    auth.advance(Readiness::none());
    assert!(auth.session().unread());
    // the answer to the probe was read: the session is ready for a command
    auth.advance(seen(true, false));
    assert!(!auth.session().unread());
    let (session, outcome) = auth.into_session();
    assert_eq!(outcome, Some(AuthenticationOutcome::Authenticated));
    assert!(session.stdin_open() && !session.unread());

    let mut refused = protocol(false, "pw");
    refused.advance(Readiness::none());
    refused.advance(Readiness::none());
    refused.advance(seen(false, true));
    let (session, outcome) = refused.into_session();
    assert_eq!(outcome, Some(AuthenticationOutcome::Denied));
    assert!(session.stdin_open() && session.unread());

    let (_, outcome) = protocol(true, "").into_session();
    assert_eq!(outcome, None);
}
