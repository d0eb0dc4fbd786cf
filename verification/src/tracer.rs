//! Following a child process: what one round of observation means for the
//! progress counter, for the sink, and for the outcome.

use vstd::prelude::*;
use crate::error::{Error, ErrorView, ExitStatus};
use crate::text::{text_of, views};
use crate::progress::{ProgressState, ProgressView};

verus! {

/// The stream a line came from.
#[derive(Clone, Copy, Debug, PartialEq, Eq, Structural)]
pub enum Origin {
    Stdout,
    Stderr,
}

/// One line of output and the stream it came from.
#[derive(Debug)]
pub struct TracedLine {
    pub origin: Origin,
    pub text: String,
}

/// Mathematical model of a traced line.
pub struct TracedLineView {
    pub origin: Origin,
    pub text: Seq<char>,
}

impl View for TracedLine {
    type V = TracedLineView;

    open spec fn view(&self) -> TracedLineView {
        TracedLineView { origin: self.origin, text: self.text@ }
    }
}

/// How a traced process ended.
#[derive(Clone, Copy, Debug, PartialEq, Eq, Structural)]
pub enum ProcessOutcome {
    Success,
    Failed(ExitStatus),
}

/// What one round of the tracing loop observed, as far as the round got.
///
/// A stream that was ready is `Some` with the line read from it, which is
/// empty at the end of the stream; a stream that was not ready is `None`.
#[derive(Debug)]
pub enum Round {
    /// Waiting for readiness failed.
    WaitFailed(std::io::Error),
    /// Reading a ready stream failed.
    ReadFailed(std::io::Error),
    /// The streams were read, then asking for the exit status failed.
    PollFailed { stdout: Option<String>, stderr: Option<String>, error: std::io::Error },
    /// The streams were read and the process was asked for its exit status,
    /// which is `None` while it runs.
    Polled { stdout: Option<String>, stderr: Option<String>, exit: Option<ExitStatus> },
}

/// Mathematical model of a round.
pub enum RoundView {
    WaitFailed(std::io::Error),
    ReadFailed(std::io::Error),
    PollFailed { stdout: Option<Seq<char>>, stderr: Option<Seq<char>>, error: std::io::Error },
    Polled { stdout: Option<Seq<char>>, stderr: Option<Seq<char>>, exit: Option<ExitStatus> },
}

impl View for Round {
    type V = RoundView;

    open spec fn view(&self) -> RoundView {
        match *self {
            Round::WaitFailed(e) => RoundView::WaitFailed(e),
            Round::ReadFailed(e) => RoundView::ReadFailed(e),
            Round::PollFailed { stdout, stderr, error } => RoundView::PollFailed {
                stdout: text_of(stdout),
                stderr: text_of(stderr),
                error,
            },
            Round::Polled { stdout, stderr, exit } => RoundView::Polled {
                stdout: text_of(stdout),
                stderr: text_of(stderr),
                exit,
            },
        }
    }
}

/// One call of the sink: the progress and the new output of each stream,
/// empty where none arrived.
#[derive(Debug)]
pub struct Update {
    pub progress: usize,
    pub stdout_line: String,
    pub stderr_line: String,
}

/// Mathematical model of a sink call.
pub struct UpdateView {
    pub progress: nat,
    pub stdout_line: Seq<char>,
    pub stderr_line: Seq<char>,
}

impl View for Update {
    type V = UpdateView;

    open spec fn view(&self) -> UpdateView {
        UpdateView {
            progress: self.progress as nat,
            stdout_line: self.stdout_line@,
            stderr_line: self.stderr_line@,
        }
    }
}

/// The lines a sink call carries, by their stream: the line of the
/// standard output stream first, then that of the standard error stream,
/// each only if it is not empty.
pub open spec fn traced_lines(u: UpdateView) -> Seq<TracedLineView> {
    let out = if u.stdout_line.len() > 0 {
        seq![TracedLineView { origin: Origin::Stdout, text: u.stdout_line }]
    } else {
        Seq::empty()
    };
    let err = if u.stderr_line.len() > 0 {
        seq![TracedLineView { origin: Origin::Stderr, text: u.stderr_line }]
    } else {
        Seq::empty()
    };
    out + err
}

impl Update {
    /// The lines this sink call carries, each with the stream it came from.
    pub fn lines(&self) -> (lines: Vec<TracedLine>)
        ensures
            views(lines@) == traced_lines(self@),
    {
        let mut lines: Vec<TracedLine> = Vec::new();
        if !self.stdout_line.as_str().is_empty() {
            lines.push(TracedLine { origin: Origin::Stdout, text: self.stdout_line.clone() });
        }
        if !self.stderr_line.as_str().is_empty() {
            lines.push(TracedLine { origin: Origin::Stderr, text: self.stderr_line.clone() });
        }
        assert(views(lines@) =~= traced_lines(self@));
        lines
    }
}

/// The model of a sink call that may be absent.
pub open spec fn update_of(u: Option<Update>) -> Option<UpdateView> {
    match u {
        Some(update) => Some(update@),
        None => None,
    }
}

/// What the tracing loop does after a round.
#[derive(Debug)]
pub enum Verdict {
    /// The process runs on: wait again.
    Continue,
    /// The process has left.
    Finished(ProcessOutcome),
    /// An I/O error ended the trace.
    Broken(std::io::Error),
}

/// What a round means: the sink call to make, if any, and how to go on.
#[derive(Debug)]
pub struct Step {
    pub update: Option<Update>,
    pub verdict: Verdict,
}

/// The text a stream contributed to a round: its line, or nothing.
pub open spec fn line_of(read: Option<Seq<char>>) -> Seq<char> {
    match read {
        Some(text) => text,
        None => Seq::empty(),
    }
}

/// The counter after the streams of a round were read: one tick if any
/// stream was ready.
pub open spec fn ticked(p: ProgressView, stdout: Option<Seq<char>>, stderr: Option<Seq<char>>)
    -> ProgressView {
    if stdout is Some || stderr is Some {
        p.advanced()
    } else {
        p
    }
}

/// The counter after a round. Only a confirmed successful exit takes it to
/// the ceiling.
pub open spec fn progress_after(p: ProgressView, round: RoundView) -> ProgressView {
    match round {
        RoundView::WaitFailed(_) => p,
        RoundView::ReadFailed(_) => p,
        RoundView::PollFailed { stdout, stderr, .. } => ticked(p, stdout, stderr),
        RoundView::Polled { stdout, stderr, exit } => match exit {
            Some(status) => if status.succeeded() {
                ticked(p, stdout, stderr).completed()
            } else {
                ticked(p, stdout, stderr)
            },
            None => ticked(p, stdout, stderr),
        },
    }
}

/// The sink call of a round: none when a wait or a read failed, and none
/// when no stream was ready and the process did not leave with success;
/// otherwise the counter after the round and the lines that were read.
pub open spec fn update_after(p: ProgressView, round: RoundView) -> Option<UpdateView> {
    match round {
        RoundView::WaitFailed(_) => None,
        RoundView::ReadFailed(_) => None,
        RoundView::PollFailed { stdout, stderr, .. } => if stdout is Some || stderr is Some {
            Some(
                UpdateView {
                    progress: progress_after(p, round).current,
                    stdout_line: line_of(stdout),
                    stderr_line: line_of(stderr),
                },
            )
        } else {
            None
        },
        RoundView::Polled { stdout, stderr, exit } => if stdout is Some || stderr is Some || (exit
            matches Some(status) && status.succeeded()) {
            Some(
                UpdateView {
                    progress: progress_after(p, round).current,
                    stdout_line: line_of(stdout),
                    stderr_line: line_of(stderr),
                },
            )
        } else {
            None
        },
    }
}

/// How the loop goes on after a round: any I/O error ends the trace, an
/// exit status ends it with the outcome, and otherwise it continues.
pub open spec fn verdict_after(round: RoundView) -> Verdict {
    match round {
        RoundView::WaitFailed(e) => Verdict::Broken(e),
        RoundView::ReadFailed(e) => Verdict::Broken(e),
        RoundView::PollFailed { error, .. } => Verdict::Broken(error),
        RoundView::Polled { exit, .. } => match exit {
            Some(status) => if status.succeeded() {
                Verdict::Finished(ProcessOutcome::Success)
            } else {
                Verdict::Finished(ProcessOutcome::Failed(status))
            },
            None => Verdict::Continue,
        },
    }
}

fn line_or_empty(read: Option<String>) -> (line: String)
    ensures
        line@ == line_of(text_of(read)),
{
    match read {
        Some(text) => text,
        None => String::new(),
    }
}

/// Follows one child process. It holds the progress counter of that
/// process and nothing else.
#[derive(Clone, Copy, Debug)]
pub struct ProcessTracer {
    progress: ProgressState,
}

impl View for ProcessTracer {
    type V = ProgressView;

    closed spec fn view(&self) -> ProgressView {
        self.progress@
    }
}

impl ProcessTracer {
    /// A tracer for a fresh process, with the counter at zero.
    pub fn new(progress_ceiling: usize) -> (tracer: ProcessTracer)
        ensures
            tracer@ == (ProgressView { current: 0, ceiling: progress_ceiling as nat }),
    {
        ProcessTracer { progress: ProgressState::new(progress_ceiling) }
    }

    /// A tracer for the next process of a staged job, with the counter
    /// where the stage before left it (at the ceiling if that lies lower).
    pub fn resume(start: usize, progress_ceiling: usize) -> (tracer: ProcessTracer)
        ensures
            tracer@ == (ProgressView {
                current: if start <= progress_ceiling {
                    start as nat
                } else {
                    progress_ceiling as nat
                },
                ceiling: progress_ceiling as nat,
            }),
    {
        ProcessTracer { progress: ProgressState::starting_at(start, progress_ceiling) }
    }

    /// The counter as it stands.
    pub fn progress(&self) -> (p: ProgressState)
        ensures
            p@ == self@,
            self@.wf(),
    {
        let _ = self.progress.current();
        self.progress
    }

    fn tick(&mut self, stdout: &Option<String>, stderr: &Option<String>) -> (ready: bool)
        ensures
            ready == (stdout is Some || stderr is Some),
            final(self)@ == ticked(old(self)@, text_of(*stdout), text_of(*stderr)),
    {
        let ready = stdout.is_some() || stderr.is_some();
        if ready {
            self.progress.advance();
        }
        ready
    }

    /// Takes in one round of observation. Moves the counter, and says which
    /// sink call to make and whether to go on.
    pub fn step(&mut self, round: Round) -> (step: Step)
        ensures
            final(self)@ == progress_after(old(self)@, round@),
            update_of(step.update) == update_after(old(self)@, round@),
            step.verdict == verdict_after(round@),
    {
        match round {
            Round::WaitFailed(e) => Step { update: None, verdict: Verdict::Broken(e) },
            Round::ReadFailed(e) => Step { update: None, verdict: Verdict::Broken(e) },
            Round::PollFailed { stdout, stderr, error } => {
                let ready = self.tick(&stdout, &stderr);
                let update = if ready {
                    Some(
                        Update {
                            progress: self.progress.current(),
                            stdout_line: line_or_empty(stdout),
                            stderr_line: line_or_empty(stderr),
                        },
                    )
                } else {
                    None
                };
                Step { update, verdict: Verdict::Broken(error) }
            },
            Round::Polled { stdout, stderr, exit } => {
                let ready = self.tick(&stdout, &stderr);
                let (done, verdict) = match exit {
                    Some(status) => if status.success() {
                        self.progress.complete();
                        (true, Verdict::Finished(ProcessOutcome::Success))
                    } else {
                        (false, Verdict::Finished(ProcessOutcome::Failed(status)))
                    },
                    None => (false, Verdict::Continue),
                };
                let update = if ready || done {
                    Some(
                        Update {
                            progress: self.progress.current(),
                            stdout_line: line_or_empty(stdout),
                            stderr_line: line_or_empty(stderr),
                        },
                    )
                } else {
                    None
                };
                Step { update, verdict }
            },
        }
    }
}

/// Mathematical model of a whole trace: the sink calls in order, the
/// counter at the end, and how the trace ended. The verdict is `Continue`
/// when the observations ran out while the process was still running.
pub struct TraceView {
    pub updates: Seq<UpdateView>,
    pub progress: ProgressView,
    pub verdict: Verdict,
}

/// A sink call that may be absent, as a list of at most one call.
pub open spec fn listed(update: Option<UpdateView>) -> Seq<UpdateView> {
    match update {
        Some(u) => seq![u],
        None => Seq::empty(),
    }
}

/// The trace of a process whose rounds are `script`, started with the
/// counter at `p`: the rounds are taken in one by one until one of them
/// ends the trace.
pub open spec fn run(p: ProgressView, script: Seq<RoundView>) -> TraceView
    decreases script.len(),
{
    if script.len() == 0 {
        TraceView { updates: Seq::empty(), progress: p, verdict: Verdict::Continue }
    } else {
        let head = listed(update_after(p, script[0]));
        let next = progress_after(p, script[0]);
        if verdict_after(script[0]) is Continue {
            let rest = run(next, script.drop_first());
            TraceView {
                updates: head + rest.updates,
                progress: rest.progress,
                verdict: rest.verdict,
            }
        } else {
            TraceView { updates: head, progress: next, verdict: verdict_after(script[0]) }
        }
    }
}

/// The sink calls of a replayed trace and how it ended.
#[derive(Debug)]
pub struct Trace {
    pub updates: Vec<Update>,
    pub verdict: Verdict,
}

/// The status of a process that was ended from outside.
pub open spec fn killed() -> ExitStatus {
    ExitStatus { code: None }
}

/// The result of a trace that ended with `verdict`. A successful exit is
/// the only success: a failure status goes through `failure_mapper`, an I/O
/// error is handed on, and a process that never left counts as killed.
pub fn finish<F: FnOnce(ExitStatus) -> Error>(verdict: Verdict, failure_mapper: F) -> (r: Result<
    (),
    Error,
>)
    requires
        verdict matches Verdict::Finished(ProcessOutcome::Failed(status)) ==> call_requires(
            failure_mapper,
            (status,),
        ),
        verdict is Continue ==> call_requires(failure_mapper, (killed(),)),
    ensures
        match verdict {
            Verdict::Finished(ProcessOutcome::Success) => r is Ok,
            Verdict::Finished(ProcessOutcome::Failed(status)) => r matches Err(e) && call_ensures(
                failure_mapper,
                (status,),
                e,
            ),
            Verdict::Broken(error) => r matches Err(e) && e@ == ErrorView::IoError(error),
            Verdict::Continue => r matches Err(e) && call_ensures(failure_mapper, (killed(),), e),
        },
{
    match verdict {
        Verdict::Finished(ProcessOutcome::Success) => Ok(()),
        Verdict::Finished(ProcessOutcome::Failed(status)) => Err(failure_mapper(status)),
        Verdict::Broken(error) => Err(Error::IoError(error)),
        Verdict::Continue => Err(failure_mapper(ExitStatus::signaled())),
    }
}

impl ProcessTracer {
    /// Takes in the rounds of `script` one by one, as `step` does, until one
    /// of them ends the trace or none is left.
    pub fn replay(&mut self, script: Vec<Round>) -> (trace: Trace)
        ensures
            views(trace.updates@) == run(old(self)@, views(script@)).updates,
            final(self)@ == run(old(self)@, views(script@)).progress,
            trace.verdict == run(old(self)@, views(script@)).verdict,
    {
        let ghost whole = run(self@, views(script@));
        let mut script = script;
        let mut updates: Vec<Update> = Vec::new();
        let mut verdict = Verdict::Continue;
        while script.len() > 0
            invariant_except_break
                verdict is Continue,
                whole.updates == views(updates@) + run(self@, views(script@)).updates,
                whole.progress == run(self@, views(script@)).progress,
                whole.verdict == run(self@, views(script@)).verdict,
            ensures
                whole.updates == views(updates@),
                whole.progress == self@,
                whole.verdict == verdict,
            decreases script.len(),
        {
            let ghost before = views(script@);
            let ghost start = self@;
            let ghost sofar = views(updates@);
            let round = script.remove(0);
            proof {
                assert(views(script@) =~= before.drop_first());
                assert(round@ == before[0]);
            }
            let step = self.step(round);
            match step.update {
                Some(update) => {
                    updates.push(update);
                    proof {
                        assert(views(updates@) =~= sofar + listed(update_after(start, before[0])));
                    }
                },
                None => {
                    proof {
                        assert(views(updates@) =~= sofar + listed(update_after(start, before[0])));
                    }
                },
            }
            match step.verdict {
                Verdict::Continue => {
                    proof {
                        let rest = run(self@, before.drop_first());
                        assert(run(start, before).updates == listed(update_after(start, before[0]))
                            + rest.updates);
                        assert(whole.updates =~= views(updates@) + rest.updates);
                    }
                },
                other => {
                    verdict = other;
                    proof {
                        assert(whole.updates =~= views(updates@));
                    }
                    break ;
                },
            }
        }
        Trace { updates, verdict }
    }
}

/// Traces a simulated process from start to end: a fresh counter below
/// `progress_ceiling`, the rounds of `process` in order, and the result as
/// `finish` gives it. Returns the sink calls next to the result.
pub fn trace<F: FnOnce(ExitStatus) -> Error>(
    process: Vec<Round>,
    progress_ceiling: usize,
    failure_mapper: F,
) -> (r: (Vec<Update>, Result<(), Error>))
    requires
        forall|status: ExitStatus| call_requires(failure_mapper, (status,)),
    ensures
        ({
            let whole = run(
                ProgressView { current: 0, ceiling: progress_ceiling as nat },
                views(process@),
            );
            &&& views(r.0@) == whole.updates
            &&& match whole.verdict {
                Verdict::Finished(ProcessOutcome::Success) => r.1 is Ok,
                Verdict::Finished(ProcessOutcome::Failed(status)) => r.1 matches Err(e)
                    && call_ensures(failure_mapper, (status,), e),
                Verdict::Broken(error) => r.1 matches Err(e) && e@ == ErrorView::IoError(error),
                Verdict::Continue => r.1 matches Err(e) && call_ensures(
                    failure_mapper,
                    (killed(),),
                    e,
                ),
            }
        }),
{
    let mut tracer = ProcessTracer::new(progress_ceiling);
    let trace = tracer.replay(process);
    let result = finish(trace.verdict, failure_mapper);
    (trace.updates, result)
}

/// How many of the sink calls carry output of the standard output stream.
pub open spec fn stdout_calls(updates: Seq<UpdateView>) -> nat
    decreases updates.len(),
{
    if updates.len() == 0 {
        0
    } else if updates[0].stdout_line.len() > 0 {
        1 + stdout_calls(updates.drop_first())
    } else {
        stdout_calls(updates.drop_first())
    }
}

/// How many of the sink calls carry output of the standard error stream.
pub open spec fn stderr_calls(updates: Seq<UpdateView>) -> nat
    decreases updates.len(),
{
    if updates.len() == 0 {
        0
    } else if updates[0].stderr_line.len() > 0 {
        1 + stderr_calls(updates.drop_first())
    } else {
        stderr_calls(updates.drop_first())
    }
}

/// The trace ended with a confirmed successful exit.
pub open spec fn succeeded(t: TraceView) -> bool {
    t.verdict == Verdict::Finished(ProcessOutcome::Success)
}

/// A trace keeps the ceiling, keeps the counter within it, and never
/// lowers the counter.
pub proof fn lemma_run_keeps_ceiling(p: ProgressView, script: Seq<RoundView>)
    requires
        p.wf(),
    ensures
        run(p, script).progress.ceiling == p.ceiling,
        run(p, script).progress.wf(),
        p.current <= run(p, script).progress.current,
    decreases script.len(),
{
    if script.len() > 0 && verdict_after(script[0]) is Continue {
        lemma_run_keeps_ceiling(progress_after(p, script[0]), script.drop_first());
    }
}

/// The last step is reserved. Whatever the process does, a counter that
/// starts below its ceiling reaches the ceiling if and only if the trace
/// ended with a confirmed successful exit; no sink call but the last shows
/// the ceiling, and the last shows it exactly when the trace succeeded.
pub proof fn lemma_progress_reserved(p: ProgressView, script: Seq<RoundView>)
    requires
        p.current < p.ceiling,
    ensures
        ({
            let t = run(p, script);
            &&& t.progress.current == p.ceiling <==> succeeded(t)
            &&& succeeded(t) ==> t.updates.len() > 0
            &&& forall|i: int|
                0 <= i < t.updates.len() ==> (#[trigger] t.updates[i]).progress <= p.ceiling
            &&& forall|i: int|
                0 <= i < t.updates.len() ==> ((#[trigger] t.updates[i]).progress == p.ceiling <==> (
                succeeded(t) && i == t.updates.len() - 1))
        }),
    decreases script.len(),
{
    if script.len() > 0 {
        let head = listed(update_after(p, script[0]));
        let next = progress_after(p, script[0]);
        if verdict_after(script[0]) is Continue {
            let rest = run(next, script.drop_first());
            lemma_progress_reserved(next, script.drop_first());
            let t = run(p, script);
            assert forall|i: int| 0 <= i < t.updates.len() implies ((#[trigger] t.updates[i]).progress
                <= p.ceiling && (t.updates[i].progress == p.ceiling <==> (succeeded(t) && i
                == t.updates.len() - 1))) by {
                if i >= head.len() {
                    assert(t.updates[i] == rest.updates[i - head.len()]);
                }
            }
        }
    }
}

/// Within one trace the progress shown to the sink never goes down: the
/// sink calls show a non-decreasing sequence between the counter at the
/// start and the counter at the end.
pub proof fn lemma_progress_monotone(p: ProgressView, script: Seq<RoundView>)
    requires
        p.wf(),
    ensures
        ({
            let t = run(p, script);
            &&& forall|i: int|
                0 <= i < t.updates.len() ==> p.current <= (#[trigger] t.updates[i]).progress
                    <= t.progress.current
            &&& forall|i: int, j: int|
                0 <= i <= j < t.updates.len() ==> (#[trigger] t.updates[i]).progress <= (
                #[trigger] t.updates[j]).progress
        }),
    decreases script.len(),
{
    if script.len() > 0 {
        let head = listed(update_after(p, script[0]));
        let next = progress_after(p, script[0]);
        if verdict_after(script[0]) is Continue {
            let rest = run(next, script.drop_first());
            lemma_progress_monotone(next, script.drop_first());
            lemma_run_keeps_ceiling(next, script.drop_first());
            let t = run(p, script);
            assert forall|i: int| 0 <= i < t.updates.len() implies p.current <= (
            #[trigger] t.updates[i]).progress <= t.progress.current by {
                if i >= head.len() {
                    assert(t.updates[i] == rest.updates[i - head.len()]);
                }
            }
            assert forall|i: int, j: int| 0 <= i <= j < t.updates.len() implies (
            #[trigger] t.updates[i]).progress <= (#[trigger] t.updates[j]).progress by {
                if i >= head.len() {
                    assert(t.updates[i] == rest.updates[i - head.len()]);
                }
                if j >= head.len() {
                    assert(t.updates[j] == rest.updates[j - head.len()]);
                }
            }
        }
    }
}

/// The rounds of a process that writes `lines` to its standard output, one
/// line per round, and then leaves with code zero.
pub open spec fn stdout_then_success(lines: Seq<Seq<char>>) -> Seq<RoundView> {
    Seq::new(
        lines.len(),
        |i: int| RoundView::Polled { stdout: Some(lines[i]), stderr: None, exit: None },
    ).push(
        RoundView::Polled {
            stdout: None,
            stderr: None,
            exit: Some(ExitStatus { code: Some(0i32) }),
        },
    )
}

/// A process that writes N lines to its standard output and then leaves
/// with code zero: the trace succeeds; the sink gets N calls with output of
/// the standard output stream, the lines in their order, and none with
/// output of the standard error stream; the progress shown stays below the
/// ceiling until the exit and is the ceiling in the last call.
pub proof fn lemma_stdout_then_success(p: ProgressView, lines: Seq<Seq<char>>)
    requires
        p.current < p.ceiling,
        forall|i: int| 0 <= i < lines.len() ==> (#[trigger] lines[i]).len() > 0,
    ensures
        ({
            let t = run(p, stdout_then_success(lines));
            &&& succeeded(t)
            &&& t.updates.len() == lines.len() + 1
            &&& stdout_calls(t.updates) == lines.len()
            &&& stderr_calls(t.updates) == 0
            &&& forall|i: int|
                0 <= i < lines.len() ==> (#[trigger] t.updates[i]).stdout_line == lines[i]
                    && t.updates[i].progress <= p.ceiling - 1
            &&& t.updates.last().progress == p.ceiling
            &&& t.progress.current == p.ceiling
        }),
    decreases lines.len(),
{
    let script = stdout_then_success(lines);
    let t = run(p, script);
    if lines.len() == 0 {
        assert(script.drop_first().len() == 0);
        assert(t.updates.len() == 1);
        assert(t.updates[0].stdout_line.len() == 0);
        assert(t.updates[0].stderr_line.len() == 0);
        assert(t.updates.drop_first() =~= Seq::<UpdateView>::empty());
        assert(stdout_calls(t.updates.drop_first()) == 0);
        assert(stderr_calls(t.updates.drop_first()) == 0);
    } else {
        let next = progress_after(p, script[0]);
        let tail = lines.drop_first();
        assert(script.drop_first() =~= stdout_then_success(tail));
        lemma_stdout_then_success(next, tail);
        let rest = run(next, script.drop_first());
        assert(t.updates.drop_first() =~= rest.updates);
        assert(t.updates[0].stdout_line == lines[0]);
        assert(t.updates[0].stderr_line.len() == 0);
        assert(stdout_calls(t.updates) == 1 + stdout_calls(rest.updates));
        assert(stderr_calls(t.updates) == stderr_calls(rest.updates));
        assert forall|i: int| 0 <= i < lines.len() implies (#[trigger] t.updates[i]).stdout_line
            == lines[i] && t.updates[i].progress <= p.ceiling - 1 by {
            if i > 0 {
                assert(t.updates[i] == rest.updates[i - 1]);
                assert(tail[i - 1] == lines[i]);
            }
        }
        assert(t.updates.last() == rest.updates.last());
    }
}

/// A process that leaves at once with a failure status: the trace ends
/// with that status, the sink is never called, and the counter stays where
/// it was, below the ceiling.
pub proof fn lemma_immediate_failure(p: ProgressView, status: ExitStatus)
    requires
        p.current < p.ceiling,
        !status.succeeded(),
    ensures
        ({
            let t = run(
                p,
                seq![RoundView::Polled { stdout: None, stderr: None, exit: Some(status) }],
            );
            &&& t.verdict == Verdict::Finished(ProcessOutcome::Failed(status))
            &&& t.updates.len() == 0
            &&& t.progress == p
            &&& t.progress.current < p.ceiling
        }),
{
}

} // verus!
