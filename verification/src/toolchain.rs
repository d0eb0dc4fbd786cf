//! How the helper programs of a setup are started: the Rust toolchain
//! installer, the package builder, and the repository client.

use vstd::prelude::*;
use crate::error::{ExitStatus, Fault, FaultKind, FaultView};
use crate::session::{SpawnPlan, SpawnPlanView, StdinSource, arguments};
use crate::text::text_of;

verus! {

/// The repository the server is built from.
pub open spec fn server_repository() -> Seq<char> {
    "https://github.com/Limit-IM/limit-server"@
}

/// The repository the server is cloned from.
pub open spec fn server_clone_source() -> Seq<char> {
    "https://github.com/Limit-LAB/limit-server"@
}

/// The package builder of the Rust toolchain, at a known path.
#[derive(Debug)]
pub struct Cargo {
    path: String,
}

impl View for Cargo {
    type V = Seq<char>;

    closed spec fn view(&self) -> Seq<char> {
        self.path@
    }
}

impl Cargo {
    /// The builder found at `path`.
    pub fn new(path: String) -> (cargo: Cargo)
        ensures
            cargo@ == path@,
    {
        Self { path: path }
    }

    /// The call that builds the server from its repository and installs it
    /// under `install_root`. The call takes no input.
    pub fn install(self, install_root: String) -> (plan: SpawnPlan)
        ensures
            plan@ == (SpawnPlanView {
                program: self@,
                args: seq![
                    "install"@,
                    "--root"@,
                    install_root@,
                    "--git"@,
                    server_repository(),
                ],
                env: Seq::empty(),
                stdin: StdinSource::Null,
            }),
    {
        let mut args: Vec<String> = Vec::new();
        args.push(String::from_str("install"));
        args.push(String::from_str("--root"));
        args.push(install_root);
        args.push(String::from_str("--git"));
        args.push(String::from_str("https://github.com/Limit-IM/limit-server"));
        let plan = SpawnPlan { program: self.path, args, env: Vec::new(), stdin: StdinSource::Null };
        assert(plan@.args =~= seq![
            "install"@,
            "--root"@,
            install_root@,
            "--git"@,
            server_repository(),
        ]);
        assert(plan@.env =~= Seq::<(Seq<char>, Seq<char>)>::empty());
        plan
    }
}

/// The installer of the Rust toolchain.
#[derive(Clone, Copy, Debug)]
pub struct Rustup;

/// The download of the toolchain installer's script.
pub open spec fn download_plan() -> SpawnPlanView {
    SpawnPlanView {
        program: "curl"@,
        args: seq!["--proto"@, "=https"@, "-tlsv1.2"@, "-sSf"@, "https://sh.rustup.rs"@],
        env: Seq::empty(),
        stdin: StdinSource::Null,
    }
}

/// The shell that runs the downloaded script, fed by the download.
pub open spec fn script_plan() -> SpawnPlanView {
    SpawnPlanView {
        program: "sh"@,
        args: seq!["-s"@, "--"@, "-y"@, "--default-toolchain"@, "nightly"@],
        env: Seq::empty(),
        stdin: StdinSource::Upstream,
    }
}

/// The directory the toolchain puts its programs in, below the home directory.
pub open spec fn cargo_bin(home: Seq<char>) -> Seq<char> {
    home + "/.cargo/bin"@
}

/// The search path for the toolchain's own programs: the present search
/// path, if there is one, a colon, and the toolchain's directory.
pub open spec fn toolchain_path(path: Option<Seq<char>>, home: Seq<char>) -> Seq<char> {
    match path {
        Some(p) => p + ":"@ + cargo_bin(home),
        None => cargo_bin(home),
    }
}

/// The call that removes the toolchain, with the search path it needs.
pub open spec fn removal_plan(path: Option<Seq<char>>, home: Seq<char>) -> SpawnPlanView {
    SpawnPlanView {
        program: "rustup"@,
        args: seq!["self"@, "uninstall"@, "-y"@],
        env: seq![("PATH"@, toolchain_path(path, home))],
        stdin: StdinSource::Null,
    }
}

impl Rustup {
    /// The two calls that install the toolchain: the download of the
    /// installer's script, and the shell that runs it with the download as
    /// its input. The shell's output is the one to follow.
    pub fn install() -> (plans: (SpawnPlan, SpawnPlan))
        ensures
            plans.0@ == download_plan(),
            plans.1@ == script_plan(),
    {
        let download = SpawnPlan {
            program: String::from_str("curl"),
            args: arguments(&["--proto", "=https", "-tlsv1.2", "-sSf", "https://sh.rustup.rs"]),
            env: Vec::new(),
            stdin: StdinSource::Null,
        };
        let script = SpawnPlan {
            program: String::from_str("sh"),
            args: arguments(&["-s", "--", "-y", "--default-toolchain", "nightly"]),
            env: Vec::new(),
            stdin: StdinSource::Upstream,
        };
        assert(download@.args =~= download_plan().args);
        assert(download@.env =~= download_plan().env);
        assert(script@.args =~= script_plan().args);
        assert(script@.env =~= script_plan().env);
        (download, script)
    }

    /// Judges the download once it has ended with `status`, having written
    /// `stderr` to its error stream: a failure status is a fault of kind
    /// `Other` whose message is what the download wrote there.
    pub fn downloaded(status: ExitStatus, stderr: String) -> (r: Result<(), Fault>)
        ensures
            status.succeeded() ==> r is Ok,
            !status.succeeded() ==> (r matches Err(fault) && fault@ == (FaultView {
                kind: FaultKind::Other,
                message: stderr@,
            })),
    {
        if status.success() {
            Ok(())
        } else {
            Err(Fault { kind: FaultKind::Other, message: stderr })
        }
    }

    /// The call that removes the toolchain. `path` is the present search
    /// path and `home` the home directory, each as the environment has it.
    /// Without a home directory there is no call: the answer is a fault of
    /// kind `NotFound` with the message `Invalid home path`.
    pub fn uninstall(path: Option<String>, home: Option<String>) -> (r: Result<SpawnPlan, Fault>)
        ensures
            match home {
                Some(h) => r matches Ok(plan) && plan@ == removal_plan(text_of(path), h@),
                None => r matches Err(fault) && fault@ == (FaultView {
                    kind: FaultKind::NotFound,
                    message: "Invalid home path"@,
                }),
            },
    {
        let ghost path_text = text_of(path);
        match home {
            Some(h) => {
                let mut search = match path {
                    Some(p) => {
                        let mut p = p;
                        p.append(":");
                        p
                    },
                    None => String::new(),
                };
                search.append(h.as_str());
                search.append("/.cargo/bin");
                assert(search@ =~= toolchain_path(path_text, h@));
                let mut env: Vec<(String, String)> = Vec::new();
                env.push((String::from_str("PATH"), search));
                let plan = SpawnPlan {
                    program: String::from_str("rustup"),
                    args: arguments(&["self", "uninstall", "-y"]),
                    env,
                    stdin: StdinSource::Null,
                };
                assert(plan@.args =~= removal_plan(path_text, h@).args);
                assert(plan@.env =~= removal_plan(path_text, h@).env);
                Ok(plan)
            },
            None => Err(
                Fault { kind: FaultKind::NotFound, message: String::from_str("Invalid home path") },
            ),
        }
    }
}

/// The call of the repository client: an update of the clone that is
/// there, or a fresh clone.
pub open spec fn repository_plan(present: bool) -> SpawnPlanView {
    SpawnPlanView {
        program: "git"@,
        args: if present {
            seq!["pull"@, "--recurse-submodules"@]
        } else {
            seq!["clone"@, "--recursive"@, server_clone_source()]
        },
        env: Seq::empty(),
        stdin: StdinSource::Null,
    }
}

/// Plans the call that brings the server's repository up to date: a pull
/// when the clone is `present`, a clone when it is not.
pub fn clone_or_pull_repo(present: bool) -> (plan: SpawnPlan)
    ensures
        plan@ == repository_plan(present),
{
    let args = if present {
        arguments(&["pull", "--recurse-submodules"])
    } else {
        arguments(&["clone", "--recursive", "https://github.com/Limit-LAB/limit-server"])
    };
    let plan = SpawnPlan {
        program: String::from_str("git"),
        args,
        env: Vec::new(),
        stdin: StdinSource::Null,
    };
    assert(plan@.args =~= repository_plan(present).args);
    assert(plan@.env =~= repository_plan(present).env);
    plan
}

} // verus!
