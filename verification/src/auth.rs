//! Confirming that an elevated shell really is elevated.
//!
//! The elevation tool gives no answer of its own before the shell it wraps
//! starts. So the protocol sends the secret, then a harmless probe command,
//! and judges by the stream that speaks first: output of the probe means
//! the shell runs, an error message means it does not.

use vstd::prelude::*;
use crate::error::{Error, ErrorView};
use crate::session::{
    ElevationMode, PrivilegedSession, SessionView, SpawnPlan, command_line, fresh_session,
    shell_plan,
};

verus! {

/// Which of the two output streams a readiness wait found readable.
#[derive(Clone, Copy, Debug, PartialEq, Eq, Structural)]
pub struct Readiness {
    pub stdout: bool,
    pub stderr: bool,
}

/// The result of the authentication protocol.
#[derive(Clone, Copy, Debug, PartialEq, Eq, Structural)]
pub enum AuthenticationOutcome {
    Authenticated,
    Denied,
    TimedOut,
}

/// The states of the authentication protocol.
#[derive(Clone, Copy, Debug, PartialEq, Eq, Structural)]
pub enum AuthState {
    Start,
    PasswordSent,
    ProbeSent,
    Authenticated,
    Denied,
    TimedOut,
}

/// What the caller does next. The secret appears in `SendSecret` and
/// nowhere else, and this type cannot be printed.
pub enum AuthAction {
    /// Write the line to the session's input, then drain whatever the
    /// error stream holds right now, without blocking and ignoring errors.
    SendSecret(String),
    /// Write the line to the session's input, then wait until an output
    /// stream is readable, for at most `timeout_ms` milliseconds, and take
    /// what the standard output stream holds if it is readable.
    SendProbe { line: String, timeout_ms: u64 },
    /// The protocol is over.
    Done(AuthenticationOutcome),
}

/// Mathematical model of an action.
pub enum AuthActionView {
    SendSecret(Seq<char>),
    SendProbe { line: Seq<char>, timeout_ms: u64 },
    Done(AuthenticationOutcome),
}

impl View for AuthAction {
    type V = AuthActionView;

    open spec fn view(&self) -> AuthActionView {
        match *self {
            AuthAction::SendSecret(line) => AuthActionView::SendSecret(line@),
            AuthAction::SendProbe { line, timeout_ms } => AuthActionView::SendProbe {
                line: line@,
                timeout_ms,
            },
            AuthAction::Done(outcome) => AuthActionView::Done(outcome),
        }
    }
}

/// How long the race between the two streams may take, in milliseconds.
pub const RACE_TIMEOUT_MS: u64 = 5000;

/// The probe: a command that prints a line and changes nothing, framed as
/// the session frames every command.
pub open spec fn probe_line() -> Seq<char> {
    command_line("whoami"@)
}

/// The judgement of the race: output on the standard output stream means
/// the probe ran; otherwise an error message means it did not; silence
/// until the timeout is a timeout. When both streams are readable at once
/// the standard output stream decides.
pub open spec fn race_outcome(seen: Readiness) -> AuthenticationOutcome {
    if seen.stdout {
        AuthenticationOutcome::Authenticated
    } else if seen.stderr {
        AuthenticationOutcome::Denied
    } else {
        AuthenticationOutcome::TimedOut
    }
}

/// The final state that stands for an outcome.
pub open spec fn state_of(outcome: AuthenticationOutcome) -> AuthState {
    match outcome {
        AuthenticationOutcome::Authenticated => AuthState::Authenticated,
        AuthenticationOutcome::Denied => AuthState::Denied,
        AuthenticationOutcome::TimedOut => AuthState::TimedOut,
    }
}

/// Mathematical model of the protocol: its state, the secret, and the
/// session it is layered on.
pub struct AuthView {
    pub state: AuthState,
    pub secret: Seq<char>,
    pub session: SessionView,
}

impl AuthView {
    /// The caller is already privileged: the shell does not run through
    /// the elevation tool.
    pub open spec fn privileged(self) -> bool {
        !self.session.elevated
    }

    /// The password step is left out for a caller that is already
    /// privileged, and when there is no secret to send.
    pub open spec fn skips_password(self) -> bool {
        self.privileged() || self.secret.len() == 0
    }

    /// The input of the session is open, and where the protocol is about
    /// to write (at the start, and after it was granted) the output of
    /// whatever was written before has been read.
    pub open spec fn wf(self) -> bool {
        &&& self.session.stdin_open
        &&& self.state == AuthState::Start || self.state == AuthState::Authenticated
            ==> !self.session.unread
    }

    /// The state after one step. `seen` counts only in state `ProbeSent`.
    pub open spec fn next_state(self, seen: Readiness) -> AuthState {
        match self.state {
            AuthState::Start => if self.skips_password() {
                AuthState::ProbeSent
            } else {
                AuthState::PasswordSent
            },
            AuthState::PasswordSent => AuthState::ProbeSent,
            AuthState::ProbeSent => state_of(race_outcome(seen)),
            AuthState::Authenticated => AuthState::Authenticated,
            AuthState::Denied => AuthState::Denied,
            AuthState::TimedOut => AuthState::TimedOut,
        }
    }

    /// The action that goes with a step.
    pub open spec fn next_action(self, seen: Readiness) -> AuthActionView {
        match self.state {
            AuthState::Start => if self.skips_password() {
                AuthActionView::SendProbe { line: probe_line(), timeout_ms: RACE_TIMEOUT_MS }
            } else {
                AuthActionView::SendSecret(command_line(self.secret))
            },
            AuthState::PasswordSent => AuthActionView::SendProbe {
                line: probe_line(),
                timeout_ms: RACE_TIMEOUT_MS,
            },
            AuthState::ProbeSent => AuthActionView::Done(race_outcome(seen)),
            AuthState::Authenticated => AuthActionView::Done(AuthenticationOutcome::Authenticated),
            AuthState::Denied => AuthActionView::Done(AuthenticationOutcome::Denied),
            AuthState::TimedOut => AuthActionView::Done(AuthenticationOutcome::TimedOut),
        }
    }

    /// The session after one step. The first step writes a command. The
    /// step after the secret comes when the error stream was drained, and
    /// writes the probe. The step after the probe takes note of the output
    /// that was read, if the standard output stream was readable.
    pub open spec fn next_session(self, seen: Readiness) -> SessionView {
        match self.state {
            AuthState::Start => self.session.written(),
            AuthState::PasswordSent => self.session.read().written(),
            AuthState::ProbeSent => if seen.stdout {
                self.session.read()
            } else {
                self.session
            },
            AuthState::Authenticated => self.session,
            AuthState::Denied => self.session,
            AuthState::TimedOut => self.session,
        }
    }

    /// The protocol after one step.
    pub open spec fn stepped(self, seen: Readiness) -> AuthView {
        AuthView {
            state: self.next_state(seen),
            secret: self.secret,
            session: self.next_session(seen),
        }
    }
}

/// The authentication protocol of one session. It owns the session while
/// it runs, keeps the secret to itself, and cannot be printed.
pub struct AuthenticationProtocol {
    state: AuthState,
    secret: String,
    session: PrivilegedSession,
}

impl View for AuthenticationProtocol {
    type V = AuthView;

    closed spec fn view(&self) -> AuthView {
        AuthView { state: self.state, secret: self.secret@, session: self.session@ }
    }
}

impl Readiness {
    /// No stream is readable: the wait timed out.
    pub fn none() -> (r: Readiness)
        ensures
            r == (Readiness { stdout: false, stderr: false }),
    {
        Readiness { stdout: false, stderr: false }
    }

    /// Judges the race between the two streams.
    pub fn outcome(self) -> (o: AuthenticationOutcome)
        ensures
            o == race_outcome(self),
            self.stdout ==> o == AuthenticationOutcome::Authenticated,
            !self.stdout && self.stderr ==> o == AuthenticationOutcome::Denied,
            !self.stdout && !self.stderr ==> o == AuthenticationOutcome::TimedOut,
    {
        if self.stdout {
            AuthenticationOutcome::Authenticated
        } else if self.stderr {
            AuthenticationOutcome::Denied
        } else {
            AuthenticationOutcome::TimedOut
        }
    }
}

impl AuthenticationOutcome {
    /// Only `Authenticated` grants anything.
    pub open spec fn granted(self) -> bool {
        self == AuthenticationOutcome::Authenticated
    }

    /// What an outcome means to a caller: a denial and a timeout are the
    /// same refusal.
    pub fn into_result(self) -> (r: Result<(), Error>)
        ensures
            self.granted() ==> r is Ok,
            !self.granted() ==> (r matches Err(e) && e@ == ErrorView::PermissionDenied),
    {
        match self {
            AuthenticationOutcome::Authenticated => Ok(()),
            AuthenticationOutcome::Denied => Err(Error::PermissionDenied),
            AuthenticationOutcome::TimedOut => Err(Error::PermissionDenied),
        }
    }
}

impl AuthenticationProtocol {
    #[verifier::type_invariant]
    spec fn writes_after_reads(self) -> bool {
        &&& self.session@.stdin_open
        &&& self.state == AuthState::Start || self.state == AuthState::Authenticated
            ==> !self.session@.unread
    }

    /// Plans the shell for the caller's mode and layers the protocol on
    /// its session, in state `Start`, with the secret to send (empty when
    /// there is none).
    pub fn open(mode: ElevationMode, secret: String) -> (r: (AuthenticationProtocol, SpawnPlan))
        ensures
            r.0@ == (AuthView {
                state: AuthState::Start,
                secret: secret@,
                session: fresh_session(mode),
            }),
            r.0@.wf(),
            r.1@ == shell_plan(mode),
    {
        let (session, plan) = PrivilegedSession::open(mode);
        (AuthenticationProtocol { state: AuthState::Start, secret, session }, plan)
    }

    /// The present state.
    pub fn state(&self) -> (s: AuthState)
        ensures
            s == self@.state,
            self@.wf(),
    {
        proof {
            use_type_invariant(self);
        }
        self.state
    }

    /// The outcome, once the protocol is over.
    pub fn outcome(&self) -> (o: Option<AuthenticationOutcome>)
        ensures
            match o {
                Some(outcome) => self@.state == state_of(outcome),
                None => self@.state == AuthState::Start || self@.state == AuthState::PasswordSent
                    || self@.state == AuthState::ProbeSent,
            },
    {
        match self.state {
            AuthState::Authenticated => Some(AuthenticationOutcome::Authenticated),
            AuthState::Denied => Some(AuthenticationOutcome::Denied),
            AuthState::TimedOut => Some(AuthenticationOutcome::TimedOut),
            _ => None,
        }
    }

    /// The session the protocol is layered on.
    pub fn session(&self) -> (s: &PrivilegedSession)
        ensures
            s@ == self@.session,
            self@.wf(),
    {
        proof {
            use_type_invariant(self);
        }
        &self.session
    }

    /// Ends the protocol and gives the session back, with the outcome if
    /// there is one. After `Authenticated` the session is ready for a command.
    pub fn into_session(self) -> (r: (PrivilegedSession, Option<AuthenticationOutcome>))
        ensures
            r.0@ == self@.session,
            self@.wf(),
            match r.1 {
                Some(outcome) => self@.state == state_of(outcome),
                None => self@.state == AuthState::Start || self@.state == AuthState::PasswordSent
                    || self@.state == AuthState::ProbeSent,
            },
    {
        proof {
            use_type_invariant(&self);
        }
        let outcome = self.outcome();
        (self.session, outcome)
    }

    /// Takes one step and says what the caller does next. `seen` is what
    /// the last readiness wait found; it counts only after the probe was
    /// sent. Every command goes through the session, which is written to
    /// only after the output of the command before was read.
    pub fn advance(&mut self, seen: Readiness) -> (action: AuthAction)
        ensures
            final(self)@ == old(self)@.stepped(seen),
            action@ == old(self)@.next_action(seen),
            old(self)@.wf(),
            final(self)@.wf(),
    {
        proof {
            use_type_invariant(&*self);
        }
        let mut session = self.session.snapshot();
        match self.state {
            AuthState::Start => {
                if !session.elevated() || self.secret.as_str().is_empty() {
                    let line = session.write_command("whoami");
                    self.state = AuthState::ProbeSent;
                    self.session = session;
                    AuthAction::SendProbe { line, timeout_ms: RACE_TIMEOUT_MS }
                } else {
                    let line = session.write_command(self.secret.as_str());
                    self.state = AuthState::PasswordSent;
                    self.session = session;
                    AuthAction::SendSecret(line)
                }
            },
            AuthState::PasswordSent => {
                session.output_read();
                let line = session.write_command("whoami");
                self.session = session;
                self.state = AuthState::ProbeSent;
                AuthAction::SendProbe { line, timeout_ms: RACE_TIMEOUT_MS }
            },
            AuthState::ProbeSent => {
                let outcome = seen.outcome();
                match outcome {
                    AuthenticationOutcome::Authenticated => {
                        session.output_read();
                        self.session = session;
                        self.state = AuthState::Authenticated;
                    },
                    AuthenticationOutcome::Denied => {
                        self.state = AuthState::Denied;
                    },
                    AuthenticationOutcome::TimedOut => {
                        self.state = AuthState::TimedOut;
                    },
                }
                AuthAction::Done(outcome)
            },
            AuthState::Authenticated => AuthAction::Done(AuthenticationOutcome::Authenticated),
            AuthState::Denied => AuthAction::Done(AuthenticationOutcome::Denied),
            AuthState::TimedOut => AuthAction::Done(AuthenticationOutcome::TimedOut),
        }
    }
}

/// The race decides the outcome: from `ProbeSent`, output on the standard
/// output stream gives `Authenticated`, an error message alone gives
/// `Denied`, and silence gives `TimedOut`; the state reached stands for
/// that outcome and no later step changes it.
pub proof fn lemma_race_decides(auth: AuthView, seen: Readiness, later: Readiness)
    requires
        auth.state == AuthState::ProbeSent,
    ensures
        auth.next_action(seen) == AuthActionView::Done(race_outcome(seen)),
        seen.stdout ==> race_outcome(seen) == AuthenticationOutcome::Authenticated,
        !seen.stdout && seen.stderr ==> race_outcome(seen) == AuthenticationOutcome::Denied,
        !seen.stdout && !seen.stderr ==> race_outcome(seen) == AuthenticationOutcome::TimedOut,
        auth.stepped(seen).state == state_of(race_outcome(seen)),
        auth.stepped(seen).stepped(later) == auth.stepped(seen),
        auth.stepped(seen).next_action(later) == AuthActionView::Done(race_outcome(seen)),
{
}

/// Every run of the protocol is over after at most three steps, and the
/// secret is sent at most once: in the first step, and only to a caller
/// that is not privileged.
pub proof fn lemma_protocol_ends(auth: AuthView, a: Readiness, b: Readiness, c: Readiness)
    requires
        auth.state == AuthState::Start,
    ensures
        auth.stepped(a).stepped(b).next_action(c) is Done,
        auth.next_action(a) is SendSecret ==> !auth.privileged(),
        !(auth.stepped(a).next_action(b) is SendSecret),
        !(auth.stepped(a).stepped(b).next_action(c) is SendSecret),
        auth.privileged() ==> auth.stepped(a).state == AuthState::ProbeSent,
{
}

/// The input of the session is written at most once between reads of its
/// output: a step that writes a command finds the output of the command
/// before read, and the protocol leaves the session ready for the next
/// command exactly when access was granted.
pub proof fn lemma_writes_follow_reads(auth: AuthView, seen: Readiness)
    requires
        auth.wf(),
    ensures
        auth.stepped(seen).wf(),
        auth.state == AuthState::Start ==> auth.session.can_write() && auth.stepped(
            seen,
        ).session == auth.session.written(),
        auth.state == AuthState::PasswordSent ==> auth.session.read().can_write()
            && auth.stepped(seen).session == auth.session.read().written(),
        !(auth.next_action(seen) is Done) ==> auth.stepped(seen).session.unread,
        auth.stepped(seen).state == AuthState::Authenticated ==> auth.stepped(
            seen,
        ).session.can_write(),
{
}

} // verus!
