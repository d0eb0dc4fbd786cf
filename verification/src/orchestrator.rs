//! One install attempt from start to end: choose the manager, open the
//! session, authenticate, write the command, follow the child.
//!
//! The orchestrator takes in what the caller observed and answers with what
//! the caller does next. It never blocks and never touches a process.

use vstd::prelude::*;
use crate::auth::{AuthAction, AuthActionView, AuthState, AuthView, Readiness, race_outcome};
use crate::catalog::{DescriptorView, PackageManagerCatalog, first_installed, install_command};
use crate::error::{Error, ErrorView};
use crate::help::{Help, HelpView};
use crate::pkgmanager::{PackageManager, PendingManager, PendingView, disposal_of};
use crate::progress::ProgressView;
use crate::session::{
    Disposal, ElevationMode, PrivilegedSession, SessionView, SpawnPlan, SpawnPlanView,
    command_line, fresh_session, shell_plan,
};
use crate::text::texts;
use crate::auth::probe_line;
use crate::error::ExitStatus;
use crate::text::views;
use crate::tracer::{
    ProcessOutcome, ProcessTracer, Round, RoundView, Update, UpdateView, Verdict, killed, listed,
    progress_after, run, update_after, update_of, verdict_after,
};

verus! {

/// What the caller reports after carrying out an action.
#[derive(Debug)]
pub enum InstallEvent {
    /// The action was carried out and there is nothing to report. This is
    /// also the event that starts an attempt, and the only one that does.
    Proceed,
    /// The names of the manager programs found on the search path.
    Probed(Vec<String>),
    /// The action failed with an I/O error.
    Failed(std::io::Error),
    /// The readiness wait after the probe returned.
    Raced(Readiness),
    /// One round of observing the child.
    Observed(Round),
}

/// Mathematical model of an event.
pub enum InstallEventView {
    Proceed,
    Probed(Seq<Seq<char>>),
    Failed(std::io::Error),
    Raced(Readiness),
    Observed(RoundView),
}

impl View for InstallEvent {
    type V = InstallEventView;

    open spec fn view(&self) -> InstallEventView {
        match *self {
            InstallEvent::Proceed => InstallEventView::Proceed,
            InstallEvent::Probed(names) => InstallEventView::Probed(texts(names@)),
            InstallEvent::Failed(e) => InstallEventView::Failed(e),
            InstallEvent::Raced(seen) => InstallEventView::Raced(seen),
            InstallEvent::Observed(round) => InstallEventView::Observed(round@),
        }
    }
}

/// What the caller does next. `SendSecret` holds the secret, so this type
/// cannot be printed.
pub enum InstallAction {
    /// Find out which manager programs are on the search path, and report
    /// them with `Probed`.
    Probe,
    /// Start the shell; report `Proceed` or `Failed`.
    Open(SpawnPlan),
    /// Write the line to the shell, then drain what its error stream holds
    /// right now, without blocking; report `Proceed` or `Failed`.
    SendSecret(String),
    /// Write the line to the shell, then wait until one of its output
    /// streams is readable, for at most `timeout_ms` milliseconds, and take
    /// what the standard output stream holds if it is readable; report
    /// `Raced` or `Failed`.
    SendProbe { line: String, timeout_ms: u64 },
    /// Write the line to the shell and close its input; report `Proceed`
    /// or `Failed`.
    Submit(String),
    /// Observe the child for one round and report it with `Observed`.
    Observe,
    /// The attempt is over, with this result. If a shell was started, the
    /// second part says how to give it up, and the caller does so whatever
    /// the result is.
    Finish(Result<(), Error>, Option<Disposal>),
    /// The event did not answer the action that is due; nothing changed.
    Ignore,
}

/// Mathematical model of an action.
pub enum InstallActionView {
    Probe,
    Open(SpawnPlanView),
    SendSecret(Seq<char>),
    SendProbe { line: Seq<char>, timeout_ms: u64 },
    Submit(Seq<char>),
    Observe,
    Finish(Result<(), ErrorView>, Option<Disposal>),
    Ignore,
}

/// The model of a result without a value.
pub open spec fn result_view(r: Result<(), Error>) -> Result<(), ErrorView> {
    match r {
        Ok(_) => Ok(()),
        Err(e) => Err(e@),
    }
}

impl View for InstallAction {
    type V = InstallActionView;

    open spec fn view(&self) -> InstallActionView {
        match *self {
            InstallAction::Probe => InstallActionView::Probe,
            InstallAction::Open(plan) => InstallActionView::Open(plan@),
            InstallAction::SendSecret(line) => InstallActionView::SendSecret(line@),
            InstallAction::SendProbe { line, timeout_ms } => InstallActionView::SendProbe {
                line: line@,
                timeout_ms,
            },
            InstallAction::Submit(line) => InstallActionView::Submit(line@),
            InstallAction::Observe => InstallActionView::Observe,
            InstallAction::Finish(r, d) => InstallActionView::Finish(result_view(r), d),
            InstallAction::Ignore => InstallActionView::Ignore,
        }
    }
}

/// The answer to an event: the sink call to make, if any, and the action.
pub struct InstallStep {
    pub update: Option<Update>,
    pub action: InstallAction,
}

/// Mathematical model of where an attempt stands.
pub enum StageView {
    /// Nothing was done yet.
    Idle,
    /// The search path is being probed.
    Selecting,
    /// A manager is chosen and the shell is being started.
    Opening(PendingView),
    /// The shell runs and the authentication protocol is under way.
    Authenticating(PendingView),
    /// The command of the manager of this name is being written.
    Submitting(Seq<char>, SessionView),
    /// The child is being followed.
    Tracing(Seq<char>, ProgressView, SessionView),
    /// The attempt is over.
    Finished,
}

/// Mathematical model of an orchestrator.
pub struct OrchestratorView {
    pub catalog: Seq<DescriptorView>,
    pub dependencies: Seq<Seq<char>>,
    pub mode: ElevationMode,
    pub secret: Seq<char>,
    pub ceiling: nat,
    pub stage: StageView,
}

/// What `step` gives: the orchestrator afterwards, the sink call, the action.
pub struct StepView {
    pub next: OrchestratorView,
    pub update: Option<UpdateView>,
    pub action: InstallActionView,
}

impl OrchestratorView {
    /// This orchestrator at another stage.
    pub open spec fn at(self, stage: StageView) -> OrchestratorView {
        OrchestratorView { stage, ..self }
    }

    /// A step that changes nothing.
    pub open spec fn ignored(self) -> StepView {
        StepView { next: self, update: None, action: InstallActionView::Ignore }
    }

    /// How to give up the shell of the attempt as it stands: nothing while
    /// no shell runs, and the disposal of the session once one does.
    pub open spec fn teardown(self) -> Option<Disposal> {
        match self.stage {
            StageView::Idle => None,
            StageView::Selecting => None,
            StageView::Opening(_) => None,
            StageView::Authenticating(pending) => Some(disposal_of(pending.auth.session)),
            StageView::Submitting(_, session) => Some(disposal_of(session)),
            StageView::Tracing(_, _, session) => Some(disposal_of(session)),
            StageView::Finished => None,
        }
    }

    /// A step that ends the attempt, with the shell given up if one runs.
    pub open spec fn finished(self, result: Result<(), ErrorView>) -> StepView {
        StepView {
            next: self.at(StageView::Finished),
            update: None,
            action: InstallActionView::Finish(result, self.teardown()),
        }
    }

    /// A step to another stage without a sink call.
    pub open spec fn moved(self, stage: StageView, action: InstallActionView) -> StepView {
        StepView { next: self.at(stage), update: None, action }
    }

    /// The first step, on `Proceed`: with nothing to install the attempt is
    /// over at once, with success, and nothing was started; otherwise the
    /// search path is probed.
    pub open spec fn begin(self) -> StepView {
        if self.dependencies.len() == 0 {
            self.finished(Ok(()))
        } else {
            self.moved(StageView::Selecting, InstallActionView::Probe)
        }
    }

    /// After the probe: without a manager the attempt ends with
    /// `NotSupported` and no shell is started; otherwise the shell for the
    /// caller's mode is started, and the secret passes to the
    /// authentication protocol. Either way the orchestrator forgets the
    /// secret.
    pub open spec fn select(self, installed: Seq<Seq<char>>) -> StepView {
        match first_installed(self.catalog, installed) {
            Some(i) => StepView {
                next: OrchestratorView {
                    secret: Seq::empty(),
                    stage: StageView::Opening(
                        PendingView {
                            descriptor: self.catalog[i],
                            auth: AuthView {
                                state: AuthState::Start,
                                secret: self.secret,
                                session: fresh_session(self.mode),
                            },
                        },
                    ),
                    ..self
                },
                update: None,
                action: InstallActionView::Open(shell_plan(self.mode)),
            },
            None => StepView {
                next: OrchestratorView {
                    secret: Seq::empty(),
                    stage: StageView::Finished,
                    ..self
                },
                update: None,
                action: InstallActionView::Finish(Err(ErrorView::NotSupported), None),
            },
        }
    }

    /// One step of the authentication protocol, seen from the attempt: the
    /// protocol's writes are handed on, a granted outcome leads to the
    /// install command, and any other outcome ends the attempt with
    /// `PermissionDenied`.
    pub open spec fn authenticate(self, pending: PendingView, seen: Readiness) -> StepView {
        let next = pending.stepped(seen);
        match pending.auth.next_action(seen) {
            AuthActionView::SendSecret(line) => self.moved(
                StageView::Authenticating(next),
                InstallActionView::SendSecret(line),
            ),
            AuthActionView::SendProbe { line, timeout_ms } => self.moved(
                StageView::Authenticating(next),
                InstallActionView::SendProbe { line, timeout_ms },
            ),
            AuthActionView::Done(_) => if next.auth.state == AuthState::Authenticated {
                self.moved(
                    StageView::Submitting(next.descriptor.name, next.auth.session.submitted()),
                    InstallActionView::Submit(
                        command_line(install_command(next.descriptor, self.dependencies)),
                    ),
                )
            } else {
                StepView {
                    next: self.at(StageView::Finished),
                    update: None,
                    action: InstallActionView::Finish(
                        Err(ErrorView::PermissionDenied),
                        Some(disposal_of(next.auth.session)),
                    ),
                }
            },
        }
    }

    /// One round of following the child: the counter moves, the sink is
    /// called, and the verdict of the round decides how to go on. A failure
    /// status becomes `ProcessFailed` with the status and the manager's name.
    pub open spec fn observe(
        self,
        name: Seq<char>,
        p: ProgressView,
        session: SessionView,
        round: RoundView,
    ) -> StepView {
        let update = update_after(p, round);
        match verdict_after(round) {
            Verdict::Continue => StepView {
                next: self.at(StageView::Tracing(name, progress_after(p, round), session)),
                update,
                action: InstallActionView::Observe,
            },
            verdict => StepView {
                next: self.at(StageView::Finished),
                update,
                action: InstallActionView::Finish(
                    Self::traced_result(name, verdict),
                    Some(disposal_of(session)),
                ),
            },
        }
    }

    /// The answer to an event. An event that does not answer the action
    /// that is due changes nothing; before the attempt has begun, that is
    /// every event but `Proceed`.
    pub open spec fn step(self, event: InstallEventView) -> StepView {
        match self.stage {
            StageView::Idle => match event {
                InstallEventView::Proceed => self.begin(),
                _ => self.ignored(),
            },
            StageView::Selecting => match event {
                InstallEventView::Probed(installed) => self.select(installed),
                _ => self.ignored(),
            },
            StageView::Opening(pending) => match event {
                InstallEventView::Proceed => self.authenticate(
                    pending,
                    Readiness { stdout: false, stderr: false },
                ),
                InstallEventView::Failed(e) => self.finished(Err(ErrorView::IoError(e))),
                _ => self.ignored(),
            },
            StageView::Authenticating(pending) => match event {
                InstallEventView::Proceed => if pending.auth.state == AuthState::PasswordSent {
                    self.authenticate(pending, Readiness { stdout: false, stderr: false })
                } else {
                    self.ignored()
                },
                InstallEventView::Raced(seen) => if pending.auth.state == AuthState::ProbeSent {
                    self.authenticate(pending, seen)
                } else {
                    self.ignored()
                },
                InstallEventView::Failed(e) => self.finished(Err(ErrorView::IoError(e))),
                _ => self.ignored(),
            },
            StageView::Submitting(name, session) => match event {
                InstallEventView::Proceed => self.moved(
                    StageView::Tracing(
                        name,
                        ProgressView { current: 0, ceiling: self.ceiling },
                        session,
                    ),
                    InstallActionView::Observe,
                ),
                InstallEventView::Failed(e) => self.finished(Err(ErrorView::IoError(e))),
                _ => self.ignored(),
            },
            StageView::Tracing(name, p, session) => match event {
                InstallEventView::Observed(round) => self.observe(name, p, session, round),
                _ => self.ignored(),
            },
            StageView::Finished => self.ignored(),
        }
    }
}

enum Stage {
    Idle,
    Selecting,
    Opening(PendingManager),
    Authenticating(PendingManager),
    Submitting(&'static str, PrivilegedSession),
    Tracing(&'static str, ProcessTracer, PrivilegedSession),
    Finished,
}

impl View for Stage {
    type V = StageView;

    closed spec fn view(&self) -> StageView {
        match *self {
            Stage::Idle => StageView::Idle,
            Stage::Selecting => StageView::Selecting,
            Stage::Opening(pending) => StageView::Opening(pending@),
            Stage::Authenticating(pending) => StageView::Authenticating(pending@),
            Stage::Submitting(name, session) => StageView::Submitting(name@, session@),
            Stage::Tracing(name, tracer, session) => StageView::Tracing(name@, tracer@, session@),
            Stage::Finished => StageView::Finished,
        }
    }
}

/// One install attempt. It owns the catalog it chooses from, the packages
/// to install, and the secret until the authentication protocol takes it.
/// It cannot be printed.
pub struct InstallOrchestrator {
    catalog: PackageManagerCatalog,
    dependencies: Vec<String>,
    mode: ElevationMode,
    secret: String,
    ceiling: usize,
    stage: Stage,
}

impl View for InstallOrchestrator {
    type V = OrchestratorView;

    closed spec fn view(&self) -> OrchestratorView {
        OrchestratorView {
            catalog: self.catalog@,
            dependencies: texts(self.dependencies@),
            mode: self.mode,
            secret: self.secret@,
            ceiling: self.ceiling as nat,
            stage: self.stage@,
        }
    }
}

fn quiet() -> (seen: Readiness)
    ensures
        seen == (Readiness { stdout: false, stderr: false }),
{
    Readiness::none()
}

impl InstallOrchestrator {
    /// An attempt that has not begun: to install `dependencies` with a
    /// manager of `catalog`, for a caller in `mode` who supplied `secret`
    /// (empty when there is none), with the progress counter of the child
    /// running up to `progress_ceiling`.
    pub fn new(
        catalog: PackageManagerCatalog,
        dependencies: Vec<String>,
        mode: ElevationMode,
        secret: String,
        progress_ceiling: usize,
    ) -> (o: InstallOrchestrator)
        ensures
            o@ == (OrchestratorView {
                catalog: catalog@,
                dependencies: texts(dependencies@),
                mode,
                secret: secret@,
                ceiling: progress_ceiling as nat,
                stage: StageView::Idle,
            }),
    {
        InstallOrchestrator {
            catalog,
            dependencies,
            mode,
            secret,
            ceiling: progress_ceiling,
            stage: Stage::Idle,
        }
    }

    /// Whether the attempt is over.
    pub fn is_finished(&self) -> (b: bool)
        ensures
            b == (self@.stage is Finished),
    {
        match self.stage {
            Stage::Finished => true,
            _ => false,
        }
    }

    fn authenticate(&mut self, pending: PendingManager, seen: Readiness) -> (step: InstallStep)
        requires
            old(self)@.stage is Finished,
        ensures
            final(self)@ == old(self)@.authenticate(pending@, seen).next,
            update_of(step.update) == old(self)@.authenticate(pending@, seen).update,
            step.action@ == old(self)@.authenticate(pending@, seen).action,
    {
        let mut pending = pending;
        match pending.advance(seen) {
            AuthAction::SendSecret(line) => {
                self.stage = Stage::Authenticating(pending);
                InstallStep { update: None, action: InstallAction::SendSecret(line) }
            },
            AuthAction::SendProbe { line, timeout_ms } => {
                self.stage = Stage::Authenticating(pending);
                InstallStep { update: None, action: InstallAction::SendProbe { line, timeout_ms } }
            },
            AuthAction::Done(_) => match pending.finish() {
                Ok(manager) => {
                    let name = manager.name();
                    let (session, line) = manager.install(&self.dependencies);
                    self.stage = Stage::Submitting(name, session);
                    InstallStep { update: None, action: InstallAction::Submit(line) }
                },
                Err((e, disposal)) => InstallStep {
                    update: None,
                    action: InstallAction::Finish(Err(e), Some(disposal)),
                },
            },
        }
    }

    /// Takes in an event and answers with the sink call to make, if any,
    /// and the action that is due next.
    pub fn step(&mut self, event: InstallEvent) -> (step: InstallStep)
        ensures
            final(self)@ == old(self)@.step(event@).next,
            update_of(step.update) == old(self)@.step(event@).update,
            step.action@ == old(self)@.step(event@).action,
    {
        let mut stage = Stage::Finished;
        core::mem::swap(&mut self.stage, &mut stage);
        let ignored = InstallStep { update: None, action: InstallAction::Ignore };
        match stage {
            Stage::Idle => match event {
                InstallEvent::Proceed => {
                    if self.dependencies.len() == 0 {
                        InstallStep { update: None, action: InstallAction::Finish(Ok(()), None) }
                    } else {
                        self.stage = Stage::Selecting;
                        InstallStep { update: None, action: InstallAction::Probe }
                    }
                },
                _ => {
                    self.stage = Stage::Idle;
                    ignored
                },
            },
            Stage::Selecting => match event {
                InstallEvent::Probed(installed) => {
                    let mut secret = String::new();
                    core::mem::swap(&mut self.secret, &mut secret);
                    match PackageManager::new_with_passwd(
                        &self.catalog,
                        secret,
                        self.mode,
                        &installed,
                    ) {
                        Ok((pending, plan)) => {
                            self.stage = Stage::Opening(pending);
                            InstallStep { update: None, action: InstallAction::Open(plan) }
                        },
                        Err(e) => InstallStep {
                            update: None,
                            action: InstallAction::Finish(Err(e), None),
                        },
                    }
                },
                _ => {
                    self.stage = Stage::Selecting;
                    ignored
                },
            },
            Stage::Opening(pending) => match event {
                InstallEvent::Proceed => self.authenticate(pending, quiet()),
                InstallEvent::Failed(e) => InstallStep {
                    update: None,
                    action: InstallAction::Finish(Err(Error::IoError(e)), None),
                },
                _ => {
                    self.stage = Stage::Opening(pending);
                    ignored
                },
            },
            Stage::Authenticating(pending) => match event {
                InstallEvent::Proceed => match pending.state() {
                    AuthState::PasswordSent => self.authenticate(pending, quiet()),
                    _ => {
                        self.stage = Stage::Authenticating(pending);
                        ignored
                    },
                },
                InstallEvent::Raced(seen) => match pending.state() {
                    AuthState::ProbeSent => self.authenticate(pending, seen),
                    _ => {
                        self.stage = Stage::Authenticating(pending);
                        ignored
                    },
                },
                InstallEvent::Failed(e) => InstallStep {
                    update: None,
                    action: InstallAction::Finish(Err(Error::IoError(e)), Some(pending.abandon())),
                },
                _ => {
                    self.stage = Stage::Authenticating(pending);
                    ignored
                },
            },
            Stage::Submitting(name, session) => match event {
                InstallEvent::Proceed => {
                    self.stage = Stage::Tracing(name, ProcessTracer::new(self.ceiling), session);
                    InstallStep { update: None, action: InstallAction::Observe }
                },
                InstallEvent::Failed(e) => InstallStep {
                    update: None,
                    action: InstallAction::Finish(Err(Error::IoError(e)), Some(session.dispose())),
                },
                _ => {
                    self.stage = Stage::Submitting(name, session);
                    ignored
                },
            },
            Stage::Tracing(name, tracer, session) => match event {
                InstallEvent::Observed(round) => {
                    let mut tracer = tracer;
                    let traced = tracer.step(round);
                    let action = match traced.verdict {
                        Verdict::Continue => {
                            self.stage = Stage::Tracing(name, tracer, session);
                            InstallAction::Observe
                        },
                        Verdict::Finished(ProcessOutcome::Success) => InstallAction::Finish(
                            Ok(()),
                            Some(session.dispose()),
                        ),
                        Verdict::Finished(ProcessOutcome::Failed(status)) => InstallAction::Finish(
                            Err(Error::ProcessFailed(status, Help::PackageManager(name))),
                            Some(session.dispose()),
                        ),
                        Verdict::Broken(error) => InstallAction::Finish(
                            Err(Error::IoError(error)),
                            Some(session.dispose()),
                        ),
                    };
                    InstallStep { update: traced.update, action }
                },
                _ => {
                    self.stage = Stage::Tracing(name, tracer, session);
                    ignored
                },
            },
            Stage::Finished => ignored,
        }
    }
}

/// A host to rehearse an attempt on: what the caller would find and
/// observe. Starting the shell and writing to it succeed on such a host.
#[derive(Debug)]
pub struct SimulatedHost {
    /// The manager programs on the search path.
    pub installed: Vec<String>,
    /// What the readiness wait after the probe finds.
    pub race: Readiness,
    /// The rounds of the child, in order.
    pub child: Vec<Round>,
}

/// Mathematical model of a simulated host.
pub struct HostView {
    pub installed: Seq<Seq<char>>,
    pub race: Readiness,
    pub child: Seq<RoundView>,
}

impl View for SimulatedHost {
    type V = HostView;

    open spec fn view(&self) -> HostView {
        HostView { installed: texts(self.installed@), race: self.race, child: views(self.child@) }
    }
}

/// What a rehearsed attempt did. It holds the lines written to the shell,
/// the secret among them, and cannot be printed.
pub struct InstallReport {
    /// The result of the attempt.
    pub result: Result<(), Error>,
    /// The sink calls, in order.
    pub updates: Vec<Update>,
    /// How the shell was given up at the end, and nothing if none was started.
    pub disposal: Option<Disposal>,
    /// The lines written to the shell, in order.
    pub written: Vec<String>,
}

/// Mathematical model of a report.
pub struct ReportView {
    pub result: Result<(), ErrorView>,
    pub updates: Seq<UpdateView>,
    pub disposal: Option<Disposal>,
    pub written: Seq<Seq<char>>,
}

impl View for InstallReport {
    type V = ReportView;

    open spec fn view(&self) -> ReportView {
        ReportView {
            result: result_view(self.result),
            updates: views(self.updates@),
            disposal: self.disposal,
            written: texts(self.written@),
        }
    }
}

impl OrchestratorView {
    /// The lines the authentication protocol writes: the secret, unless the
    /// password step is left out, and the probe.
    pub open spec fn handshake_lines(self) -> Seq<Seq<char>> {
        if self.mode == ElevationMode::Root || self.secret.len() == 0 {
            seq![probe_line()]
        } else {
            seq![command_line(self.secret), probe_line()]
        }
    }

    /// The result of following the child of the manager `name` to the end
    /// of `verdict`. A child that never left counts as killed.
    pub open spec fn traced_result(name: Seq<char>, verdict: Verdict) -> Result<(), ErrorView> {
        match verdict {
            Verdict::Finished(ProcessOutcome::Success) => Ok(()),
            Verdict::Finished(ProcessOutcome::Failed(status)) => Err(
                ErrorView::ProcessFailed(status, HelpView::PackageManager(name)),
            ),
            Verdict::Broken(error) => Err(ErrorView::IoError(error)),
            Verdict::Continue => Err(
                ErrorView::ProcessFailed(killed(), HelpView::PackageManager(name)),
            ),
        }
    }

    /// A whole attempt on a simulated host, from an orchestrator that has
    /// not begun. With nothing to install it succeeds at once. Without a
    /// manager it fails with `NotSupported` before a shell is started.
    /// Otherwise the shell is started and the handshake written; if the
    /// race does not grant access the attempt fails with
    /// `PermissionDenied`; if it does, the install command of the first
    /// installed manager is written and the child is traced to its end.
    pub open spec fn install(self, host: HostView) -> ReportView {
        if self.dependencies.len() == 0 {
            ReportView {
                result: Ok(()),
                updates: Seq::empty(),
                disposal: None,
                written: Seq::empty(),
            }
        } else {
            match first_installed(self.catalog, host.installed) {
                None => ReportView {
                    result: Err(ErrorView::NotSupported),
                    updates: Seq::empty(),
                    disposal: None,
                    written: Seq::empty(),
                },
                Some(i) => if race_outcome(host.race).granted() {
                    let traced = run(
                        ProgressView { current: 0, ceiling: self.ceiling },
                        host.child,
                    );
                    ReportView {
                        result: Self::traced_result(self.catalog[i].name, traced.verdict),
                        updates: traced.updates,
                        disposal: Some(Disposal { close_stdin: false, wait: true }),
                        written: self.handshake_lines().push(
                            command_line(install_command(self.catalog[i], self.dependencies)),
                        ),
                    }
                } else {
                    ReportView {
                        result: Err(ErrorView::PermissionDenied),
                        updates: Seq::empty(),
                        disposal: Some(Disposal { close_stdin: true, wait: true }),
                        written: self.handshake_lines(),
                    }
                },
            }
        }
    }
}

impl InstallOrchestrator {
    /// Runs a whole attempt on a simulated host: makes an orchestrator as
    /// `new` does, answers every action of `step` with what the host holds,
    /// and reports what was done. A child whose rounds run out before it
    /// leaves counts as killed.
    pub fn install(
        catalog: PackageManagerCatalog,
        dependencies: Vec<String>,
        mode: ElevationMode,
        secret: String,
        progress_ceiling: usize,
        host: SimulatedHost,
    ) -> (report: InstallReport)
        ensures
            report@ == (OrchestratorView {
                catalog: catalog@,
                dependencies: texts(dependencies@),
                mode,
                secret: secret@,
                ceiling: progress_ceiling as nat,
                stage: StageView::Idle,
            }).install(host@),
    {
        let mut o = InstallOrchestrator::new(catalog, dependencies, mode, secret, progress_ceiling);
        let ghost start = o@;
        let ghost model = host@;
        let mut written: Vec<String> = Vec::new();
        let mut updates: Vec<Update> = Vec::new();
        let SimulatedHost { installed, race, child } = host;

        let begun = o.step(InstallEvent::Proceed);
        match begun.action {
            InstallAction::Finish(result, disposal) => {
                proof {
                    assert(views(updates@) =~= Seq::<UpdateView>::empty());
                    assert(texts(written@) =~= Seq::<Seq<char>>::empty());
                }
                return InstallReport { result, updates, disposal, written };
            },
            _ => {},
        }
        let selected = o.step(InstallEvent::Probed(installed));
        match selected.action {
            InstallAction::Finish(result, disposal) => {
                proof {
                    assert(views(updates@) =~= Seq::<UpdateView>::empty());
                    assert(texts(written@) =~= Seq::<Seq<char>>::empty());
                }
                return InstallReport { result, updates, disposal, written };
            },
            _ => {},
        }
        let ghost chosen = first_installed(start.catalog, model.installed)->0;
        proof {
            crate::catalog::lemma_first_installed(start.catalog, model.installed);
        }
        let opened = o.step(InstallEvent::Proceed);
        match opened.action {
            InstallAction::SendSecret(line) => {
                written.push(line);
                let sent = o.step(InstallEvent::Proceed);
                match sent.action {
                    InstallAction::SendProbe { line, timeout_ms } => {
                        written.push(line);
                    },
                    _ => {
                        assert(false);
                    },
                }
            },
            InstallAction::SendProbe { line, timeout_ms } => {
                written.push(line);
            },
            _ => {
                assert(false);
            },
        }
        proof {
            assert(texts(written@) =~= start.handshake_lines());
        }
        let raced = o.step(InstallEvent::Raced(race));
        match raced.action {
            InstallAction::Finish(result, disposal) => {
                proof {
                    assert(views(updates@) =~= Seq::<UpdateView>::empty());
                }
                return InstallReport { result, updates, disposal, written };
            },
            InstallAction::Submit(line) => {
                written.push(line);
            },
            _ => {
                assert(false);
            },
        }
        proof {
            assert(texts(written@) =~= start.handshake_lines().push(
                command_line(install_command(start.catalog[chosen], start.dependencies)),
            ));
        }
        let submitted = o.step(InstallEvent::Proceed);
        let ghost name = start.catalog[chosen].name;
        let ghost whole = run(ProgressView { current: 0, ceiling: start.ceiling }, model.child);
        let mut child = child;
        let ghost gone = Some(Disposal { close_stdin: false, wait: true });
        let mut result: Option<(Result<(), Error>, Option<Disposal>)> = None;
        while child.len() > 0
            invariant_except_break
                result is None,
                o@.stage matches StageView::Tracing(n, p, session) && n == name
                    && !session.stdin_open && ({
                    &&& whole.updates == views(updates@) + run(p, views(child@)).updates
                    &&& whole.verdict == run(p, views(child@)).verdict
                }),
            invariant
                gone == Some(Disposal { close_stdin: false, wait: true }),
            ensures
                whole.updates == views(updates@),
                match result {
                    Some(r) => result_view(r.0) == OrchestratorView::traced_result(
                        name,
                        whole.verdict,
                    ) && r.1 == gone,
                    None => whole.verdict is Continue && (o@.stage matches StageView::Tracing(
                        n,
                        p,
                        session,
                    ) && n == name && !session.stdin_open),
                },
            decreases child.len(),
        {
            let ghost before = views(child@);
            let ghost sofar = views(updates@);
            let ghost p = o@.stage->Tracing_1;
            let round = child.remove(0);
            proof {
                assert(views(child@) =~= before.drop_first());
                assert(round@ == before[0]);
            }
            let traced = o.step(InstallEvent::Observed(round));
            match traced.update {
                Some(update) => {
                    updates.push(update);
                },
                None => {},
            }
            proof {
                assert(views(updates@) =~= sofar + listed(update_after(p, before[0])));
            }
            match traced.action {
                InstallAction::Observe => {
                    proof {
                        let rest = run(progress_after(p, before[0]), before.drop_first());
                        assert(whole.updates =~= views(updates@) + rest.updates);
                    }
                },
                InstallAction::Finish(r, disposal) => {
                    proof {
                        assert(whole.updates =~= views(updates@));
                        assert(whole.verdict == verdict_after(before[0]));
                        assert(result_view(r) == OrchestratorView::traced_result(
                            name,
                            whole.verdict,
                        ));
                        assert(disposal == gone);
                    }
                    result = Some((r, disposal));
                    break ;
                },
                _ => {
                    assert(false);
                },
            }
        }
        let (result, disposal) = match result {
            Some(r) => r,
            None => match o.stage {
                Stage::Tracing(name, _, session) => (
                    Err(Error::ProcessFailed(ExitStatus::signaled(), Help::PackageManager(name))),
                    Some(session.dispose()),
                ),
                _ => {
                    assert(false);
                    (Ok(()), None)
                },
            },
        };
        InstallReport { result, updates, disposal, written }
    }
}

/// Once an attempt is over, no event changes it or asks for anything.
pub proof fn lemma_finished_stays(o: OrchestratorView, event: InstallEventView)
    requires
        o.stage is Finished,
    ensures
        o.step(event) == o.ignored(),
{
}

/// Before an attempt has begun, every event but `Proceed` changes nothing.
pub proof fn lemma_only_proceed_begins(o: OrchestratorView, event: InstallEventView)
    requires
        o.stage is Idle,
        !(event is Proceed),
    ensures
        o.step(event) == o.ignored(),
{
}

/// With nothing to install the first step ends the attempt with success:
/// no probe, no shell to start or to give up, no write.
pub proof fn lemma_nothing_to_install(o: OrchestratorView, host: HostView)
    requires
        o.stage is Idle,
        o.dependencies.len() == 0,
    ensures
        o.step(InstallEventView::Proceed).action == InstallActionView::Finish(Ok(()), None),
        o.step(InstallEventView::Proceed).next.stage is Finished,
        o.step(InstallEventView::Proceed).update is None,
        o.install(host).result == Ok::<(), ErrorView>(()),
        o.install(host).disposal is None,
        o.install(host).written.len() == 0,
        o.install(host).updates.len() == 0,
{
}

/// Without a known manager on the search path the attempt ends with
/// `NotSupported` right after the probe: the two actions of the attempt are
/// the probe and the end, no shell is started and none is to give up.
pub proof fn lemma_no_manager(o: OrchestratorView, installed: Seq<Seq<char>>, host: HostView)
    requires
        o.stage is Idle,
        o.dependencies.len() > 0,
        first_installed(o.catalog, installed) is None,
        host.installed == installed,
    ensures
        o.step(InstallEventView::Proceed).action == InstallActionView::Probe,
        o.step(InstallEventView::Proceed).next.step(InstallEventView::Probed(installed)).action
            == InstallActionView::Finish(Err(ErrorView::NotSupported), None),
        o.step(InstallEventView::Proceed).next.step(
            InstallEventView::Probed(installed),
        ).next.stage is Finished,
        o.install(host).result == Err::<(), ErrorView>(ErrorView::NotSupported),
        o.install(host).disposal is None,
        o.install(host).written.len() == 0,
{
}

/// A denial and a timeout end the attempt alike, with `PermissionDenied`,
/// after the shell was started and before the install command is written.
pub proof fn lemma_refused(o: OrchestratorView, host: HostView)
    requires
        o.dependencies.len() > 0,
        first_installed(o.catalog, host.installed) is Some,
        !host.race.stdout,
    ensures
        o.install(host).result == Err::<(), ErrorView>(ErrorView::PermissionDenied),
        o.install(host).disposal == Some(Disposal { close_stdin: true, wait: true }),
        o.install(host).written == o.handshake_lines(),
        o.install(host).updates.len() == 0,
{
}

/// The secret reaches the shell and nothing else: two attempts that differ
/// in the secret alone make the same sink calls and end with the same
/// result.
pub proof fn lemma_secret_stays_out_of_sink(o: OrchestratorView, other: Seq<char>, host: HostView)
    ensures
        o.install(host).updates == (OrchestratorView { secret: other, ..o }).install(host).updates,
        o.install(host).result == (OrchestratorView { secret: other, ..o }).install(host).result,
        o.install(host).disposal == (OrchestratorView { secret: other, ..o }).install(
            host,
        ).disposal,
{
}

/// An attempt that gets through: something to install, a manager on the
/// search path, the probe answered, and a child that writes lines to its
/// standard output and leaves with code zero. The attempt succeeds; the
/// last line written to the shell is the install command of the first
/// installed manager; the progress shown to the sink never goes down,
/// stays below the ceiling until the exit, and ends at the ceiling.
pub proof fn lemma_install_succeeds(o: OrchestratorView, host: HostView, lines: Seq<Seq<char>>)
    requires
        o.dependencies.len() > 0,
        o.ceiling >= 1,
        first_installed(o.catalog, host.installed) is Some,
        host.race.stdout,
        host.child == crate::tracer::stdout_then_success(lines),
        forall|i: int| 0 <= i < lines.len() ==> (#[trigger] lines[i]).len() > 0,
    ensures
        ({
            let report = o.install(host);
            let chosen = o.catalog[first_installed(o.catalog, host.installed)->0];
            &&& report.result == Ok::<(), ErrorView>(())
            &&& report.disposal == Some(Disposal { close_stdin: false, wait: true })
            &&& report.written.last() == command_line(install_command(chosen, o.dependencies))
            &&& report.updates.len() == lines.len() + 1
            &&& forall|i: int, j: int|
                0 <= i <= j < report.updates.len() ==> (#[trigger] report.updates[i]).progress <= (
                #[trigger] report.updates[j]).progress
            &&& forall|i: int|
                0 <= i < lines.len() ==> (#[trigger] report.updates[i]).progress < o.ceiling
            &&& report.updates.last().progress == o.ceiling
        }),
{
    let p = ProgressView { current: 0, ceiling: o.ceiling };
    crate::tracer::lemma_stdout_then_success(p, lines);
    crate::tracer::lemma_progress_monotone(p, host.child);
}

/// No child stays behind: whenever an attempt ends while a shell runs, in
/// whatever stage and with whatever result, the end comes with a disposal
/// that waits for the child, and that closes the input of the shell if it
/// was not taken.
pub proof fn lemma_shell_is_given_up(o: OrchestratorView, event: InstallEventView)
    requires
        o.step(event).action is Finish,
    ensures
        match o.stage {
            StageView::Authenticating(pending) => o.step(event).action->Finish_1 matches Some(d)
                && d.wait && (pending.auth.session.stdin_open ==> d.close_stdin),
            StageView::Submitting(_, session) => o.step(event).action->Finish_1 == Some(
                Disposal { close_stdin: session.stdin_open, wait: true },
            ),
            StageView::Tracing(_, _, session) => o.step(event).action->Finish_1 == Some(
                Disposal { close_stdin: session.stdin_open, wait: true },
            ),
            StageView::Opening(_) => o.step(event).action->Finish_1 is Some <==> event is Proceed,
            _ => o.step(event).action->Finish_1 is None,
        },
        o.step(event).next.stage is Finished,
{
}

} // verus!
