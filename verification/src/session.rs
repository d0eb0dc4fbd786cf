//! The privileged shell session: which shell to start, how a command is
//! framed, and what is left to do when the session is given up.

use vstd::prelude::*;
use crate::text::views;

verus! {

/// Whether the caller already has the privileges the shell needs.
#[derive(Clone, Copy, Debug, PartialEq, Eq, Structural)]
pub enum ElevationMode {
    /// The caller is privileged: a plain shell will do.
    Root,
    /// The caller is not: the shell is started through the elevation tool,
    /// which asks for a secret.
    NeedSecret,
}

/// Asks the operating system for the effective user id of this process,
/// with `nix::unistd::Uid::effective`. The answer depends on who runs the
/// process, so nothing is claimed about it.
#[verifier::external_body]
fn effective_uid() -> (uid: u32) {
    nix::unistd::Uid::effective().as_raw()
}

/// `nix::unistd::Uid::is_root`: a user id is the privileged user's exactly
/// when it is zero.
#[verifier::external_body]
fn uid_is_root(uid: u32) -> (root: bool)
    ensures
        root == (uid == 0),
{
    nix::unistd::Uid::from_raw(uid).is_root()
}

impl ElevationMode {
    /// The mode that goes with an effective user id.
    pub open spec fn of_uid(uid: u32) -> ElevationMode {
        if uid == 0 {
            ElevationMode::Root
        } else {
            ElevationMode::NeedSecret
        }
    }

    /// The mode for a caller with the given effective user id.
    pub fn for_uid(uid: u32) -> (mode: ElevationMode)
        ensures
            mode == ElevationMode::of_uid(uid),
    {
        if uid_is_root(uid) {
            ElevationMode::Root
        } else {
            ElevationMode::NeedSecret
        }
    }

    /// The mode for this process, by its effective user id. Which one it
    /// is depends on who runs the process.
    pub fn detect() -> (mode: ElevationMode) {
        ElevationMode::for_uid(effective_uid())
    }

    /// Whether the caller is privileged.
    pub fn is_privileged(self) -> (b: bool)
        ensures
            b == (self == ElevationMode::Root),
    {
        match self {
            ElevationMode::Root => true,
            ElevationMode::NeedSecret => false,
        }
    }
}

/// Where a child process takes its input from. Its two output streams are
/// always piped back to the caller.
#[derive(Clone, Copy, Debug, PartialEq, Eq, Structural)]
pub enum StdinSource {
    /// A pipe the caller writes to.
    Piped,
    /// Nothing.
    Null,
    /// The output of the process planned just before this one.
    Upstream,
}

/// How to start a child process: the program, its arguments, the
/// environment variables to set for it, and its input.
#[derive(Debug)]
pub struct SpawnPlan {
    pub program: String,
    pub args: Vec<String>,
    pub env: Vec<(String, String)>,
    pub stdin: StdinSource,
}

/// Mathematical model of a spawn plan.
pub struct SpawnPlanView {
    pub program: Seq<char>,
    pub args: Seq<Seq<char>>,
    pub env: Seq<(Seq<char>, Seq<char>)>,
    pub stdin: StdinSource,
}

impl View for SpawnPlan {
    type V = SpawnPlanView;

    open spec fn view(&self) -> SpawnPlanView {
        SpawnPlanView {
            program: self.program@,
            args: views(self.args@),
            env: Seq::new(self.env@.len(), |i: int| (self.env@[i].0@, self.env@[i].1@)),
            stdin: self.stdin,
        }
    }
}

/// Builds the argument list of a plan from string literals.
pub fn arguments(items: &[&str]) -> (args: Vec<String>)
    ensures
        args@.len() == items@.len(),
        forall|i: int| 0 <= i < items@.len() ==> (#[trigger] args@[i])@ == items@[i]@,
{
    let mut args: Vec<String> = Vec::new();
    let mut i: usize = 0;
    while i < items.len()
        invariant
            i <= items@.len(),
            args@.len() == i,
            forall|j: int| 0 <= j < i ==> (#[trigger] args@[j])@ == items@[j]@,
        decreases items@.len() - i,
    {
        args.push(String::from_str(items[i]));
        i = i + 1;
    }
    args
}

/// The shell to start: a plain `sh` for a privileged caller, and `su -c sh`
/// for one who is not. Either way its input is a pipe.
pub open spec fn shell_plan(mode: ElevationMode) -> SpawnPlanView {
    match mode {
        ElevationMode::Root => SpawnPlanView {
            program: "sh"@,
            args: Seq::empty(),
            env: Seq::empty(),
            stdin: StdinSource::Piped,
        },
        ElevationMode::NeedSecret => SpawnPlanView {
            program: "su"@,
            args: seq!["-c"@, "sh"@],
            env: Seq::empty(),
            stdin: StdinSource::Piped,
        },
    }
}

/// A command as it is written to the shell: the text and a newline.
pub open spec fn command_line(text: Seq<char>) -> Seq<char> {
    text + "\n"@
}

/// Mathematical model of a session.
pub struct SessionView {
    /// The shell runs through the elevation tool.
    pub elevated: bool,
    /// The input of the shell was not taken yet.
    pub stdin_open: bool,
    /// A command was written and no output was read since.
    pub unread: bool,
}

impl SessionView {
    /// A command may be written: the input is open, and the output of the
    /// command before was read.
    pub open spec fn can_write(self) -> bool {
        self.stdin_open && !self.unread
    }

    /// The session after a command was written.
    pub open spec fn written(self) -> SessionView {
        SessionView { unread: true, ..self }
    }

    /// The session after output was read.
    pub open spec fn read(self) -> SessionView {
        SessionView { unread: false, ..self }
    }

    /// The session after its last command was written and its input taken.
    pub open spec fn submitted(self) -> SessionView {
        SessionView { stdin_open: false, unread: true, ..self }
    }
}

/// The session right after it was planned for `mode`: input open, nothing
/// written, elevated exactly when the elevation tool is used.
pub open spec fn fresh_session(mode: ElevationMode) -> SessionView {
    SessionView { elevated: mode == ElevationMode::NeedSecret, stdin_open: true, unread: false }
}

/// What the library knows of a shell session: whether it runs through the
/// elevation tool, whether its input is still open, and whether a command
/// waits for its output to be read. The caller owns the child process and
/// its pipes.
#[derive(Debug)]
pub struct PrivilegedSession {
    elevated: bool,
    stdin_open: bool,
    unread: bool,
}

impl View for PrivilegedSession {
    type V = SessionView;

    closed spec fn view(&self) -> SessionView {
        SessionView { elevated: self.elevated, stdin_open: self.stdin_open, unread: self.unread }
    }
}

/// What is left to do when a session is given up.
#[derive(Clone, Copy, Debug, PartialEq, Eq, Structural)]
pub struct Disposal {
    /// Close the input of the shell first: it is still open.
    pub close_stdin: bool,
    /// Wait for the child to leave, so that none stays behind.
    pub wait: bool,
}

impl PrivilegedSession {
    /// Plans the shell for the given mode and gives the session that goes
    /// with it.
    pub fn open(mode: ElevationMode) -> (r: (PrivilegedSession, SpawnPlan))
        ensures
            r.0@ == fresh_session(mode),
            r.1@ == shell_plan(mode),
    {
        match mode {
            ElevationMode::Root => {
                let plan = SpawnPlan {
                    program: String::from_str("sh"),
                    args: Vec::new(),
                    env: Vec::new(),
                    stdin: StdinSource::Piped,
                };
                assert(plan@.args =~= Seq::<Seq<char>>::empty());
                assert(plan@.env =~= Seq::<(Seq<char>, Seq<char>)>::empty());
                (PrivilegedSession { elevated: false, stdin_open: true, unread: false }, plan)
            },
            ElevationMode::NeedSecret => {
                let plan = SpawnPlan {
                    program: String::from_str("su"),
                    args: arguments(&["-c", "sh"]),
                    env: Vec::new(),
                    stdin: StdinSource::Piped,
                };
                assert(plan@.args =~= seq!["-c"@, "sh"@]);
                assert(plan@.env =~= Seq::<(Seq<char>, Seq<char>)>::empty());
                (PrivilegedSession { elevated: true, stdin_open: true, unread: false }, plan)
            },
        }
    }

    /// Whether the shell runs through the elevation tool.
    pub fn elevated(&self) -> (b: bool)
        ensures
            b == self@.elevated,
    {
        self.elevated
    }

    /// Whether the input of the shell is still open.
    pub fn stdin_open(&self) -> (b: bool)
        ensures
            b == self@.stdin_open,
    {
        self.stdin_open
    }

    /// The same knowledge once more, for a step that changes it as a whole.
    pub(crate) fn snapshot(&self) -> (s: PrivilegedSession)
        ensures
            s@ == self@,
    {
        PrivilegedSession {
            elevated: self.elevated,
            stdin_open: self.stdin_open,
            unread: self.unread,
        }
    }

    /// Whether a command was written whose output was not read yet.
    pub fn unread(&self) -> (b: bool)
        ensures
            b == self@.unread,
    {
        self.unread
    }

    /// Frames a command for the shell: the text and one newline. The input
    /// stays open for more. A command is written only after the output of
    /// the command before was read.
    pub fn write_command(&mut self, text: &str) -> (line: String)
        requires
            old(self)@.can_write(),
        ensures
            line@ == command_line(text@),
            final(self)@ == old(self)@.written(),
    {
        self.unread = true;
        let mut line = String::from_str(text);
        line.append("\n");
        line
    }

    /// Takes note that output of the shell was read.
    pub fn output_read(&mut self)
        ensures
            final(self)@ == old(self)@.read(),
    {
        self.unread = false;
    }

    /// Frames the last command of the session and takes its input: after
    /// the line is written the input is closed, and nothing more can be
    /// written.
    pub fn submit(&mut self, text: &str) -> (line: String)
        requires
            old(self)@.can_write(),
        ensures
            line@ == command_line(text@),
            final(self)@ == old(self)@.submitted(),
    {
        self.stdin_open = false;
        self.unread = true;
        let mut line = String::from_str(text);
        line.append("\n");
        line
    }

    /// What giving up the session takes: close the input if it was not
    /// taken, and always wait for the child.
    pub fn dispose(self) -> (d: Disposal)
        ensures
            d == (Disposal { close_stdin: self@.stdin_open, wait: true }),
    {
        Disposal { close_stdin: self.stdin_open, wait: true }
    }
}

} // verus!
