use limit_up::auth::Readiness;
use limit_up::catalog::PackageManagerCatalog;
use limit_up::error::{Error, ExitStatus};
use limit_up::help::Help;
use limit_up::orchestrator::{
    InstallAction, InstallEvent, InstallOrchestrator, InstallReport, SimulatedHost,
};
use limit_up::session::{Disposal, ElevationMode, StdinSource};
use limit_up::tracer::Round;

fn names(items: &[&str]) -> Vec<String> {
    items.iter().map(|n| n.to_string()).collect()
}

fn child(lines: &[&str], code: i32) -> Vec<Round> {
    let mut rounds: Vec<Round> = lines
        .iter()
        .map(|l| Round::Polled { stdout: Some(l.to_string()), stderr: None, exit: None })
        .collect();
    rounds.push(Round::Polled { stdout: None, stderr: None, exit: Some(ExitStatus::exited(code)) });
    rounds
}

fn run(
    deps: &[&str],
    mode: ElevationMode,
    secret: &str,
    ceiling: usize,
    host: SimulatedHost,
) -> InstallReport {
    InstallOrchestrator::install(
        PackageManagerCatalog::standard(),
        names(deps),
        mode,
        secret.to_string(),
        ceiling,
        host,
    )
}

#[test]
fn curl_with_apt_and_three_lines_succeeds() {
    let host = SimulatedHost {
        installed: names(&["apt-get"]),
        race: Readiness { stdout: true, stderr: false },
        child: child(&["Reading package lists...\n", "Unpacking curl\n", "Setting up curl\n"], 0),
    };
    let report = run(&["curl"], ElevationMode::NeedSecret, "secret", 40, host);
    assert!(report.result.is_ok());
    assert_eq!(report.disposal, Some(Disposal { close_stdin: false, wait: true }));
    assert_eq!(
        report.written,
        vec![
            "secret\n".to_string(),
            "whoami\n".to_string(),
            "apt-get update -y && apt-get install -y curl && exit\n".to_string()
        ]
    );
    let shown: Vec<usize> = report.updates.iter().map(|u| u.progress).collect();
    assert_eq!(shown, vec![1, 2, 3, 40]);
    assert!(shown.windows(2).all(|w| w[0] <= w[1]));
    assert_eq!(*shown.last().unwrap(), 40);
    let lines: Vec<&str> = report.updates.iter().map(|u| u.stdout_line.as_str()).collect();
    assert_eq!(
        lines,
        vec!["Reading package lists...\n", "Unpacking curl\n", "Setting up curl\n", ""]
    );
}

#[test]
fn no_dependencies_succeeds_without_a_process() {
    let host = SimulatedHost {
        installed: names(&["apt-get"]),
        race: Readiness { stdout: false, stderr: true },
        child: child(&[], 1),
    };
    let report = run(&[], ElevationMode::NeedSecret, "secret", 40, host);
    assert!(report.result.is_ok());
    assert_eq!(report.disposal, None);
    assert!(report.written.is_empty());
    assert!(report.updates.is_empty());

    let mut o = InstallOrchestrator::new(
        PackageManagerCatalog::standard(),
        Vec::new(),
        ElevationMode::Root,
        String::new(),
        40,
    );
    let step = o.step(InstallEvent::Proceed);
    assert!(matches!(step.action, InstallAction::Finish(Ok(()), None)));
    assert!(step.update.is_none());
    assert!(o.is_finished());
}

#[test]
fn no_manager_is_not_supported_without_a_session() {
    let host = SimulatedHost {
        installed: names(&["sh", "ls"]),
        race: Readiness { stdout: true, stderr: false },
        child: child(&["x\n"], 0),
    };
    let report = run(&["curl"], ElevationMode::Root, "", 40, host);
    assert!(matches!(report.result, Err(Error::NotSupported)));
    assert_eq!(report.disposal, None);
    assert!(report.written.is_empty());

    let mut o = InstallOrchestrator::new(
        PackageManagerCatalog::standard(),
        names(&["curl"]),
        ElevationMode::NeedSecret,
        "pw".to_string(),
        40,
    );
    assert!(matches!(o.step(InstallEvent::Proceed).action, InstallAction::Probe));
    assert!(!o.is_finished());
    let step = o.step(InstallEvent::Probed(Vec::new()));
    assert!(matches!(step.action, InstallAction::Finish(Err(Error::NotSupported), None)));
    assert!(o.is_finished());
    assert!(matches!(o.step(InstallEvent::Proceed).action, InstallAction::Ignore));
}

#[test]
fn denied_and_timed_out_are_permission_denied() {
    for race in [Readiness { stdout: false, stderr: true }, Readiness { stdout: false, stderr: false }]
    {
        let host = SimulatedHost { installed: names(&["dnf"]), race, child: child(&["x\n"], 0) };
        let report = run(&["curl"], ElevationMode::NeedSecret, "wrong", 40, host);
        assert!(matches!(report.result, Err(Error::PermissionDenied)));
        assert_eq!(report.disposal, Some(Disposal { close_stdin: true, wait: true }));
        assert_eq!(report.written, vec!["wrong\n".to_string(), "whoami\n".to_string()]);
        assert!(report.updates.is_empty());
    }
}

#[test]
fn privileged_caller_writes_no_secret() {
    let host = SimulatedHost {
        installed: names(&["pacman"]),
        race: Readiness { stdout: true, stderr: true },
        child: child(&[], 0),
    };
    let report = run(&["curl", "git"], ElevationMode::Root, "ignored", 10, host);
    assert!(report.result.is_ok());
    assert_eq!(
        report.written,
        vec![
            "whoami\n".to_string(),
            "pacman -Sy --noconfirm && pacman -S --noconfirm curl git && exit\n".to_string()
        ]
    );
    assert_eq!(report.updates.len(), 1);
    assert_eq!(report.updates[0].progress, 10);
}

#[test]
fn failure_carries_status_and_manager() {
    let host = SimulatedHost {
        installed: names(&["zypper"]),
        race: Readiness { stdout: true, stderr: false },
        child: child(&["a\n"], 100),
    };
    let report = run(&["curl"], ElevationMode::Root, "", 40, host);
    match report.result {
        Err(Error::ProcessFailed(status, Help::PackageManager(name))) => {
            assert_eq!(status.code, Some(100));
            assert_eq!(name, "zypper");
        }
        other => panic!("unexpected result {:?}", other),
    }
    assert!(report.updates.iter().all(|u| u.progress < 40));
}

#[test]
fn child_that_never_leaves_is_a_failure() {
    let host = SimulatedHost {
        installed: names(&["apk"]),
        race: Readiness { stdout: true, stderr: false },
        child: vec![Round::Polled { stdout: Some("a\n".to_string()), stderr: None, exit: None }],
    };
    let report = run(&["curl"], ElevationMode::Root, "", 40, host);
    assert!(matches!(
        report.result,
        Err(Error::ProcessFailed(ExitStatus { code: None }, Help::PackageManager("apk")))
    ));
    assert_eq!(report.disposal, Some(Disposal { close_stdin: false, wait: true }));
}

#[test]
fn stepping_through_an_attempt() {
    let mut o = InstallOrchestrator::new(
        PackageManagerCatalog::standard(),
        names(&["curl"]),
        ElevationMode::NeedSecret,
        "pw".to_string(),
        5,
    );
    assert!(matches!(o.step(InstallEvent::Proceed).action, InstallAction::Probe));
    // an event that does not answer the probe changes nothing
    assert!(matches!(o.step(InstallEvent::Proceed).action, InstallAction::Ignore));
    match o.step(InstallEvent::Probed(names(&["dnf", "apt-get"]))).action {
        InstallAction::Open(plan) => {
            assert_eq!(plan.program, "su");
            assert_eq!(plan.args, vec!["-c".to_string(), "sh".to_string()]);
            assert_eq!(plan.stdin, StdinSource::Piped);
        }
        _ => panic!("the shell is started after the probe"),
    }
    match o.step(InstallEvent::Proceed).action {
        InstallAction::SendSecret(line) => assert_eq!(line, "pw\n"),
        _ => panic!("the secret goes first"),
    }
    assert!(matches!(
        o.step(InstallEvent::Raced(Readiness { stdout: true, stderr: false })).action,
        InstallAction::Ignore
    ));
    match o.step(InstallEvent::Proceed).action {
        InstallAction::SendProbe { line, timeout_ms } => {
            assert_eq!(line, "whoami\n");
            assert_eq!(timeout_ms, 5000);
        }
        _ => panic!("the probe goes second"),
    }
    match o.step(InstallEvent::Raced(Readiness { stdout: true, stderr: false })).action {
        InstallAction::Submit(line) => {
            assert_eq!(line, "apt-get update -y && apt-get install -y curl && exit\n")
        }
        _ => panic!("the command follows the handshake"),
    }
    assert!(matches!(o.step(InstallEvent::Proceed).action, InstallAction::Observe));
    let step = o.step(InstallEvent::Observed(Round::Polled {
        stdout: Some("out\n".to_string()),
        stderr: Some("err\n".to_string()),
        exit: None,
    }));
    assert!(matches!(step.action, InstallAction::Observe));
    let update = step.update.unwrap();
    assert_eq!((update.progress, update.stdout_line.as_str()), (1, "out\n"));
    assert_eq!(update.stderr_line, "err\n");
    let step = o.step(InstallEvent::Observed(Round::Polled {
        stdout: None,
        stderr: None,
        exit: Some(ExitStatus::exited(0)),
    }));
    assert!(matches!(
        step.action,
        InstallAction::Finish(Ok(()), Some(Disposal { close_stdin: false, wait: true }))
    ));
    assert_eq!(step.update.unwrap().progress, 5);
    assert!(o.is_finished());
}

#[test]
fn only_proceed_begins_an_attempt() {
    let mut o = InstallOrchestrator::new(
        PackageManagerCatalog::standard(),
        names(&["curl"]),
        ElevationMode::Root,
        String::new(),
        5,
    );
    let broken = std::io::Error::new(std::io::ErrorKind::Other, "early");
    assert!(matches!(o.step(InstallEvent::Failed(broken)).action, InstallAction::Ignore));
    assert!(matches!(
        o.step(InstallEvent::Probed(names(&["dnf"]))).action,
        InstallAction::Ignore
    ));
    assert!(matches!(
        o.step(InstallEvent::Raced(Readiness { stdout: true, stderr: false })).action,
        InstallAction::Ignore
    ));
    assert!(!o.is_finished());
    assert!(matches!(o.step(InstallEvent::Proceed).action, InstallAction::Probe));
}

#[test]
fn io_failures_end_the_attempt() {
    let broken = || std::io::Error::new(std::io::ErrorKind::NotFound, "no shell");
    let fresh = || {
        let mut o = InstallOrchestrator::new(
            PackageManagerCatalog::standard(),
            names(&["curl"]),
            ElevationMode::Root,
            String::new(),
            5,
        );
        o.step(InstallEvent::Proceed);
        o.step(InstallEvent::Probed(names(&["pkg"])));
        o
    };
    let mut o = fresh();
    match o.step(InstallEvent::Failed(broken())).action {
        InstallAction::Finish(Err(Error::IoError(e)), disposal) => {
            assert_eq!(e.kind(), std::io::ErrorKind::NotFound);
            assert_eq!(disposal, None);
        }
        _ => panic!("a failed start ends the attempt"),
    }
    assert!(o.is_finished());

    let mut o = fresh();
    assert!(matches!(o.step(InstallEvent::Proceed).action, InstallAction::SendProbe { .. }));
    assert!(matches!(
        o.step(InstallEvent::Failed(broken())).action,
        InstallAction::Finish(
            Err(Error::IoError(_)),
            Some(Disposal { close_stdin: true, wait: true })
        )
    ));

    let mut o = fresh();
    o.step(InstallEvent::Proceed);
    assert!(matches!(
        o.step(InstallEvent::Raced(Readiness { stdout: true, stderr: false })).action,
        InstallAction::Submit(_)
    ));
    assert!(matches!(
        o.step(InstallEvent::Failed(broken())).action,
        InstallAction::Finish(
            Err(Error::IoError(_)),
            Some(Disposal { close_stdin: false, wait: true })
        )
    ));

    let mut o = fresh();
    o.step(InstallEvent::Proceed);
    o.step(InstallEvent::Raced(Readiness { stdout: true, stderr: false }));
    o.step(InstallEvent::Proceed);
    assert!(matches!(
        o.step(InstallEvent::Observed(Round::ReadFailed(broken()))).action,
        InstallAction::Finish(Err(Error::IoError(_)), Some(_))
    ));
    assert!(o.is_finished());
}
