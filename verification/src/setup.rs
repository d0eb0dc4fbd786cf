//! The plan of a server setup: what has to be installed, in which stages,
//! and how far each stage moves the progress.

use vstd::prelude::*;
use crate::error::{Error, ErrorView, ExitStatus};
use crate::help::{Help, HelpView};
use crate::progress::ProgressView;
use crate::text::texts;
use crate::tracer::ProcessTracer;

verus! {

/// What the user chose for a setup.
#[derive(Debug)]
pub struct InstallConfig {
    /// The packages to install before the server.
    pub dependencies: Vec<String>,
    /// The directory the server goes to.
    pub install_root: String,
}

impl Default for InstallConfig {
    fn default() -> (config: InstallConfig)
        ensures
            config.dependencies@.len() == 0,
            config.install_root@.len() == 0,
    {
        InstallConfig { dependencies: Vec::new(), install_root: String::new() }
    }
}

/// The directory offered for the server: `.limit-lab` below the home directory.
pub fn default_install_root(home: &str) -> (root: String)
    ensures
        root@ == home@ + "/.limit-lab"@,
{
    let mut root = String::from_str(home);
    root.append("/.limit-lab");
    root
}

/// The configuration a setup starts from: the download tool is a
/// dependency exactly when it was not found, and the install root is open.
pub fn prepare_install(curl_found: bool) -> (config: InstallConfig)
    ensures
        texts(config.dependencies@) == if curl_found {
            Seq::<Seq<char>>::empty()
        } else {
            seq!["curl"@]
        },
        config.install_root@.len() == 0,
{
    let mut config = InstallConfig::default();
    if !curl_found {
        config.dependencies.push(String::from_str("curl"));
    }
    assert(texts(config.dependencies@) =~= if curl_found {
        Seq::<Seq<char>>::empty()
    } else {
        seq!["curl"@]
    });
    config
}

/// The share of the whole progress that installing the dependencies takes.
pub const DEPENDENCIES_CEILING: usize = 40;

/// The whole progress when the dependencies are installed and `percent` of
/// the server is there: the dependencies' share, and that part of the rest.
/// More than all of the server counts as all of it.
pub open spec fn overall(percent: nat) -> nat {
    let part = if percent <= 100 {
        percent
    } else {
        100
    };
    DEPENDENCIES_CEILING as nat + part * (100 - DEPENDENCIES_CEILING) as nat / 100
}

/// The whole progress to show while the server is being fetched.
pub fn overall_progress(percent: usize) -> (shown: usize)
    ensures
        shown == overall(percent as nat),
        DEPENDENCIES_CEILING <= shown <= 100,
{
    let part: usize = if percent <= 100 {
        percent
    } else {
        100
    };
    let rest: usize = 100 - DEPENDENCIES_CEILING;
    assert(part * rest <= 6000) by (nonlinear_arith)
        requires
            part <= 100,
            rest == 60,
    ;
    let scaled: usize = part * rest / 100;
    DEPENDENCIES_CEILING + scaled
}

/// A stage of the setup that runs a child process.
#[derive(Clone, Copy, Debug, PartialEq, Eq, Structural)]
pub enum SetupStage {
    /// The package manager installs the language runtime.
    Elixir,
    /// The repository client fetches the server.
    Repository,
}

/// One thing the setup does.
#[derive(Clone, Copy, Debug, PartialEq, Eq, Structural)]
pub enum SetupStep {
    /// Run the child of the stage and follow it.
    Trace(SetupStage),
    /// Show this progress, with no output.
    Report(usize),
}

/// The progress shown between the two stages.
pub const HALFWAY: usize = 50;

/// The steps of a setup: the runtime is installed only when it was not
/// found; then half of the way is shown; then the repository is fetched.
pub open spec fn setup_steps(runtime_found: bool) -> Seq<SetupStep> {
    if runtime_found {
        seq![SetupStep::Report(HALFWAY), SetupStep::Trace(SetupStage::Repository)]
    } else {
        seq![
            SetupStep::Trace(SetupStage::Elixir),
            SetupStep::Report(HALFWAY),
            SetupStep::Trace(SetupStage::Repository),
        ]
    }
}

/// Plans a setup, given whether the language runtime was found.
pub fn install(runtime_found: bool) -> (steps: Vec<SetupStep>)
    ensures
        steps@ == setup_steps(runtime_found),
{
    let mut steps: Vec<SetupStep> = Vec::new();
    if !runtime_found {
        steps.push(SetupStep::Trace(SetupStage::Elixir));
    }
    steps.push(SetupStep::Report(HALFWAY));
    steps.push(SetupStep::Trace(SetupStage::Repository));
    assert(steps@ =~= setup_steps(runtime_found));
    steps
}

/// The packages that make up the language runtime.
pub fn install_elixir() -> (pkgs: Vec<String>)
    ensures
        texts(pkgs@) == seq!["elixir"@],
{
    let mut pkgs: Vec<String> = Vec::new();
    pkgs.push(String::from_str("elixir"));
    assert(texts(pkgs@) =~= seq!["elixir"@]);
    pkgs
}

impl SetupStage {
    /// The span of the progress a stage moves through: the runtime from
    /// zero to just below the half, the repository from the half to just
    /// below the whole.
    pub open spec fn span(self) -> ProgressView {
        match self {
            SetupStage::Elixir => ProgressView { current: 0, ceiling: 49 },
            SetupStage::Repository => ProgressView { current: 50, ceiling: 99 },
        }
    }

    /// The tracer for the child of this stage.
    pub fn tracer(self) -> (tracer: ProcessTracer)
        ensures
            tracer@ == self.span(),
    {
        match self {
            SetupStage::Elixir => ProcessTracer::resume(0, 49),
            SetupStage::Repository => ProcessTracer::resume(50, 99),
        }
    }

    /// The error for a child of this stage that left with a failure
    /// status: a failed process, with the network as the place to look.
    pub fn on_failed(self, status: ExitStatus) -> (e: Error)
        ensures
            e@ == ErrorView::ProcessFailed(status, HelpView::Network),
    {
        Error::ProcessFailed(status, Help::Network)
    }
}

} // verus!
