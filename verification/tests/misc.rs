use limit_up::command::{Args, Command};
use limit_up::download::DownloadProgress;
use limit_up::error::{Error, ExitStatus, FaultKind};
use limit_up::help::Help;
use limit_up::setup::{
    default_install_root, install, install_elixir, overall_progress, prepare_install,
    InstallConfig, SetupStage, SetupStep, DEPENDENCIES_CEILING, HALFWAY,
};
use limit_up::text::{contains_text, decimal_text, join_tokens, same_text};
use limit_up::toolchain::{clone_or_pull_repo, Cargo, Rustup};
use limit_up::session::StdinSource;
use limit_up::ui::{centered, Install, Key, Rect, StepTabs, Ui, UiState, Welcome};

fn names(items: &[&str]) -> Vec<String> {
    items.iter().map(|n| n.to_string()).collect()
}

#[test]
fn tokens_are_joined_by_single_spaces() {
    assert_eq!(join_tokens(&names(&[])), "");
    assert_eq!(join_tokens(&names(&["one"])), "one");
    assert_eq!(join_tokens(&names(&["one", "two", "three"])), "one two three");
    assert_eq!(join_tokens(&names(&["", ""])), " ");
}

#[test]
fn numbers_are_written_in_decimal() {
    assert_eq!(decimal_text(0), "0");
    assert_eq!(decimal_text(7), "7");
    assert_eq!(decimal_text(10), "10");
    assert_eq!(decimal_text(127), "127");
    assert_eq!(decimal_text(-1), "-1");
    assert_eq!(decimal_text(i32::MAX), "2147483647");
    assert_eq!(decimal_text(i32::MIN), "-2147483648");
    for n in [-1000, -99, 5, 42, 100, 65535, 1234567890] {
        assert_eq!(decimal_text(n), n.to_string());
    }
}

#[test]
fn texts_are_compared_by_their_characters() {
    assert!(same_text("apt-get", "apt-get"));
    assert!(!same_text("apt-get", "apt"));
    assert!(same_text("", ""));
    assert!(contains_text(&names(&["a", "b"]), "b"));
    assert!(!contains_text(&names(&["a", "b"]), "c"));
    assert!(!contains_text(&Vec::new(), ""));
}

#[test]
fn exit_status_in_words() {
    assert!(ExitStatus::exited(0).success());
    assert!(!ExitStatus::exited(1).success());
    assert!(!ExitStatus::exited(-1).success());
    assert!(!ExitStatus::signaled().success());
    assert_eq!(ExitStatus::exited(1).to_string(), "exit status: 1");
    assert_eq!(ExitStatus::exited(0).to_string(), "exit status: 0");
    assert_eq!(ExitStatus::signaled().to_string(), "signal");
}

#[test]
fn help_texts() {
    assert_eq!(
        Help::Network.info(),
        "Please confirm the network settings and try again, if the problem persists please contact us."
    );
    assert_eq!(
        Help::Git.info(),
        "Check your network settings or delete the repository and try again, if the problem persists please contact us."
    );
    assert_eq!(
        Help::Network.to_string(),
        "help: Please confirm the network settings and try again, if the problem persists please contact us."
    );
    assert_eq!(
        Help::PackageManager("pacman").info(),
        "Run `pacman -Sy` as root and try again, if the problem persists please contact us."
    );
    assert_eq!(
        Help::PackageManager("apt-get").info(),
        "Run `apt-get update` as root and try again, if the problem persists please contact us."
    );
    // a manager that is not in the table falls back to the network text
    assert_eq!(Help::PackageManager("brew").info(), Help::Network.info());
}

#[test]
fn error_messages() {
    assert_eq!(Error::NotSupported.to_string(), "Unsupported package manager or platform");
    assert_eq!(Error::PermissionDenied.to_string(), "Permission denied");
    assert_eq!(
        Error::ProcessFailed(ExitStatus::exited(100), Help::PackageManager("dnf")).to_string(),
        "Package manager exit with exit status: 100\n\nhelp: Run `dnf update` as root and try again, if the problem persists please contact us."
    );
    let io = std::io::Error::new(std::io::ErrorKind::Other, "pipe closed");
    assert_eq!(Error::IoError(io).to_string(), "pipe closed");
    let from: Error = std::io::Error::new(std::io::ErrorKind::Other, "x").into();
    assert!(matches!(from, Error::IoError(_)));
}

#[test]
fn cargo_install_plan() {
    let plan = Cargo::new("/home/u/.cargo/bin/cargo".to_string()).install("/opt/limit".to_string());
    assert_eq!(plan.program, "/home/u/.cargo/bin/cargo");
    assert_eq!(
        plan.args,
        names(&[
            "install",
            "--root",
            "/opt/limit",
            "--git",
            "https://github.com/Limit-IM/limit-server"
        ])
    );
    assert!(plan.env.is_empty());
    assert_eq!(plan.stdin, StdinSource::Null);
}

#[test]
fn rustup_test() {
    let config = prepare_install(false);
    assert_eq!(config.dependencies, names(&["curl"]));
    println!("install curl: {:?}", config.dependencies);
    assert!(prepare_install(true).dependencies.is_empty());

    let (download, script) = Rustup::install();
    println!("install: {:?}", script);
    assert_eq!(download.program, "curl");
    assert_eq!(
        download.args,
        names(&["--proto", "=https", "-tlsv1.2", "-sSf", "https://sh.rustup.rs"])
    );
    assert_eq!(download.stdin, StdinSource::Null);
    assert_eq!(script.program, "sh");
    assert_eq!(script.args, names(&["-s", "--", "-y", "--default-toolchain", "nightly"]));
    assert_eq!(script.stdin, StdinSource::Upstream);
    assert!(Rustup::downloaded(ExitStatus::exited(0), "ignored".to_string()).is_ok());
    let fault = Rustup::downloaded(ExitStatus::exited(6), "curl: (6) no host".to_string())
        .unwrap_err();
    assert_eq!(fault.kind, FaultKind::Other);
    assert_eq!(fault.message, "curl: (6) no host");
    assert!(Rustup::downloaded(ExitStatus::signaled(), String::new()).is_err());

    let plan = Rustup::uninstall(Some("/usr/bin:/bin".to_string()), Some("/home/u".to_string()))
        .unwrap();
    println!("uninstall: {:?}", plan);
    assert_eq!(plan.program, "rustup");
    assert_eq!(plan.args, names(&["self", "uninstall", "-y"]));
    assert_eq!(
        plan.env,
        vec![("PATH".to_string(), "/usr/bin:/bin:/home/u/.cargo/bin".to_string())]
    );
    assert_eq!(plan.stdin, StdinSource::Null);
    let plan = Rustup::uninstall(None, Some("/home/u".to_string())).unwrap();
    assert_eq!(plan.env, vec![("PATH".to_string(), "/home/u/.cargo/bin".to_string())]);
    for path in [Some("/bin".to_string()), None] {
        let fault = Rustup::uninstall(path, None).unwrap_err();
        assert_eq!(fault.kind, FaultKind::NotFound);
        assert_eq!(fault.message, "Invalid home path");
    }
}

#[test]
fn repository_is_pulled_or_cloned() {
    let pull = clone_or_pull_repo(true);
    assert_eq!(pull.program, "git");
    assert_eq!(pull.args, names(&["pull", "--recurse-submodules"]));
    let clone = clone_or_pull_repo(false);
    assert_eq!(
        clone.args,
        names(&["clone", "--recursive", "https://github.com/Limit-LAB/limit-server"])
    );
    assert_eq!(clone.stdin, StdinSource::Null);
}

#[test]
fn setup_plan() {
    assert_eq!(
        install(false),
        vec![
            SetupStep::Trace(SetupStage::Elixir),
            SetupStep::Report(50),
            SetupStep::Trace(SetupStage::Repository)
        ]
    );
    assert_eq!(
        install(true),
        vec![SetupStep::Report(HALFWAY), SetupStep::Trace(SetupStage::Repository)]
    );
    assert_eq!(install_elixir(), names(&["elixir"]));
    let first = SetupStage::Elixir.tracer().progress();
    assert_eq!((first.current(), first.ceiling()), (0, 49));
    let second = SetupStage::Repository.tracer().progress();
    assert_eq!((second.current(), second.ceiling()), (50, 99));
    assert!(matches!(
        SetupStage::Repository.on_failed(ExitStatus::exited(128)),
        Error::ProcessFailed(ExitStatus { code: Some(128) }, Help::Network)
    ));
    assert_eq!(default_install_root("/home/u"), "/home/u/.limit-lab");
    assert_eq!(default_install_root(""), "/.limit-lab");
    let config = InstallConfig::default();
    assert!(config.dependencies.is_empty());
    assert_eq!(config.install_root, "");
}

#[test]
fn server_progress_fills_the_rest_of_the_bar() {
    assert_eq!(DEPENDENCIES_CEILING, 40);
    assert_eq!(overall_progress(0), 40);
    assert_eq!(overall_progress(1), 40);
    assert_eq!(overall_progress(2), 41);
    assert_eq!(overall_progress(50), 70);
    assert_eq!(overall_progress(99), 99);
    assert_eq!(overall_progress(100), 100);
    assert_eq!(overall_progress(200), 100);
    assert_eq!(overall_progress(usize::MAX), 100);
}

#[test]
fn download_reports_changes_only() {
    let mut d = DownloadProgress::new(1000);
    assert_eq!(d.advance(5), None);
    assert_eq!(d.advance(5), Some(1));
    assert_eq!(d.advance(0), None);
    assert_eq!(d.advance(490), Some(50));
    assert_eq!(d.shown(), 50);
    assert_eq!(d.advance(499), Some(99));
    assert_eq!(d.advance(1), Some(100));
    assert_eq!(d.advance(1000), Some(200));
    let mut unknown = DownloadProgress::new(0);
    assert_eq!(unknown.advance(10), None);
    assert_eq!(unknown.shown(), 0);
    let mut third = DownloadProgress::new(3);
    assert_eq!(third.advance(1), Some(33));
    assert_eq!(third.advance(1), Some(66));
    assert_eq!(third.advance(1), Some(100));
}

#[test]
fn args_default_to_the_terminal_interface() {
    assert_eq!(Args { cmd: None }.command(), Command::Tui);
    assert_eq!(Args { cmd: Some(Command::Tui) }.command(), Command::Tui);
}

#[test]
fn welcome_page_keys() {
    let mut page = Welcome::new();
    let mut state = UiState { key: Some(Key::Char('q')), runnable: true, step: 0 };
    page.process(&mut state);
    assert_eq!(state, UiState { key: Some(Key::Char('q')), runnable: false, step: 0 });
    let mut state = UiState { key: Some(Key::Other), runnable: true, step: 0 };
    page.process(&mut state);
    assert_eq!((state.runnable, state.step), (true, 1));
    let mut state = UiState { key: None, runnable: true, step: 0 };
    page.process(&mut state);
    assert_eq!((state.runnable, state.step), (true, 0));
}

#[test]
fn install_page_keys() {
    let mut page = Install::new();
    let mut state = UiState { key: Some(Key::Left), runnable: true, step: 1 };
    page.process(&mut state);
    assert_eq!((state.runnable, state.step), (true, 0));
    let mut state = UiState { key: Some(Key::Char('q')), runnable: true, step: 1 };
    page.process(&mut state);
    assert_eq!((state.runnable, state.step), (false, 1));
    let mut state = UiState { key: Some(Key::Char('x')), runnable: true, step: 1 };
    page.process(&mut state);
    assert_eq!((state.runnable, state.step), (true, 1));
}

#[test]
fn wizard_keys() {
    let mut ui = Ui::setup();
    assert_eq!(ui.step(), 0);
    assert!(ui.exec(Key::Other));
    assert_eq!(ui.step(), 1);
    assert!(ui.exec(Key::Other));
    assert_eq!(ui.step(), 1);
    assert!(ui.exec(Key::Right));
    assert_eq!(ui.step(), 2);
    assert!(ui.exec(Key::Left));
    assert!(ui.exec(Key::Left));
    assert_eq!(ui.step(), 0);
    assert!(ui.exec(Key::Left));
    assert_eq!(ui.step(), 1);
    assert!(!ui.exec(Key::Char('q')));
    assert_eq!(ui.step(), 1);
}

#[test]
fn logo_is_centred_or_hidden() {
    assert_eq!(centered(80, 24, 30, 6), Rect { x: 25, y: 9, width: 30, height: 6 });
    assert_eq!(centered(20, 24, 30, 6), Rect { x: 0, y: 9, width: 0, height: 6 });
    assert_eq!(centered(80, 4, 30, 6), Rect { x: 25, y: 0, width: 30, height: 0 });
    assert_eq!(centered(0, 0, 0, 0), Rect { x: 0, y: 0, width: 0, height: 0 });
    assert_eq!(centered(u16::MAX, 10, u16::MAX, 10).width, u16::MAX);
    assert_eq!(centered(9, 9, 4, 5), Rect { x: 2, y: 2, width: 4, height: 5 });
}

#[test]
fn step_tabs_move_within_their_tabs() {
    let mut tabs = StepTabs::new();
    tabs.next();
    tabs.prev();
    assert_eq!(tabs.active_tab(), 0);
    assert!(tabs.update_bar().is_empty());
    let mut tabs = StepTabs::new()
        .title("Limit Up".to_string())
        .with_tab("Welcome".to_string())
        .with_tab("Install".to_string())
        .with_tab("Config & Deploy".to_string());
    assert_eq!(tabs.active_tab(), 0);
    tabs.prev();
    assert_eq!(tabs.active_tab(), 0);
    tabs.next();
    assert_eq!(tabs.active_tab(), 1);
    let bar = tabs.update_bar();
    let shown: Vec<(&str, &str, bool)> =
        bar.iter().map(|s| (s.title.as_str(), s.separator, s.active)).collect();
    assert_eq!(
        shown,
        vec![
            ("Welcome", " > ", false),
            ("Install", " > ", true),
            ("Config & Deploy", "", false)
        ]
    );
    tabs.next();
    tabs.next();
    assert_eq!(tabs.active_tab(), 2);
    tabs.prev();
    assert_eq!(tabs.active_tab(), 1);
}
