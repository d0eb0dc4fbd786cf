use limit_up::auth::{AuthAction, AuthState, Readiness};
use limit_up::catalog::PackageManagerCatalog;
use limit_up::error::Error;
use limit_up::pkgmanager::PackageManager;
use limit_up::session::{arguments, Disposal, ElevationMode, PrivilegedSession, StdinSource};

fn names(items: &[&str]) -> Vec<String> {
    items.iter().map(|n| n.to_string()).collect()
}

#[test]
fn only_user_zero_is_root() {
    assert_eq!(ElevationMode::for_uid(0), ElevationMode::Root);
    assert_eq!(ElevationMode::for_uid(1), ElevationMode::NeedSecret);
    assert_eq!(ElevationMode::for_uid(1000), ElevationMode::NeedSecret);
    assert_eq!(ElevationMode::for_uid(u32::MAX), ElevationMode::NeedSecret);
    assert!(ElevationMode::Root.is_privileged());
    assert!(!ElevationMode::NeedSecret.is_privileged());
}

#[test]
fn detect_gives_one_of_the_modes() {
    let mode = ElevationMode::detect();
    assert!(mode == ElevationMode::Root || mode == ElevationMode::NeedSecret);
    assert_eq!(mode, ElevationMode::detect());
}

#[test]
fn privileged_caller_gets_a_plain_shell() {
    let (session, plan) = PrivilegedSession::open(ElevationMode::Root);
    assert_eq!(plan.program, "sh");
    assert!(plan.args.is_empty());
    assert!(plan.env.is_empty());
    assert_eq!(plan.stdin, StdinSource::Piped);
    assert!(!session.elevated());
    assert!(session.stdin_open());
}

#[test]
fn other_callers_go_through_the_elevation_tool() {
    let (session, plan) = PrivilegedSession::open(ElevationMode::NeedSecret);
    assert_eq!(plan.program, "su");
    assert_eq!(plan.args, names(&["-c", "sh"]));
    assert_eq!(plan.stdin, StdinSource::Piped);
    assert!(session.elevated());
    assert!(session.stdin_open());
}

#[test]
fn commands_end_with_one_newline() {
    let (mut session, _) = PrivilegedSession::open(ElevationMode::Root);
    assert!(!session.unread());
    assert_eq!(session.write_command("whoami"), "whoami\n");
    assert!(session.unread());
    session.output_read();
    assert!(!session.unread());
    assert_eq!(session.write_command(""), "\n");
    assert!(session.stdin_open());
    session.output_read();
    assert_eq!(session.submit("ls && exit"), "ls && exit\n");
    assert!(!session.stdin_open());
    assert!(session.unread());
}

#[test]
fn disposal_closes_an_open_input_and_waits() {
    let (session, _) = PrivilegedSession::open(ElevationMode::Root);
    assert_eq!(session.dispose(), Disposal { close_stdin: true, wait: true });
    let (mut session, _) = PrivilegedSession::open(ElevationMode::NeedSecret);
    session.submit("exit");
    assert_eq!(session.dispose(), Disposal { close_stdin: false, wait: true });
}

#[test]
fn arguments_copy_the_literals() {
    assert_eq!(arguments(&["a", "", "c d"]), names(&["a", "", "c d"]));
    assert!(arguments(&[]).is_empty());
}

#[test]
fn pkgmanager_pkgmgr_test() {
    let catalog = PackageManagerCatalog::standard();
    let (mgr, plan) =
        PackageManager::new(&catalog, ElevationMode::Root, &names(&["pkg"])).unwrap();
    println!("package manager: {}", mgr.name());
    assert_eq!(mgr.name(), "pkg");
    assert_eq!(plan.program, "sh");
    let (session, line) = mgr.install(&names(&["cowsay"]));
    println!("install: {}", line);
    assert_eq!(line, "pkg update -y && pkg install -y cowsay && exit\n");
    assert!(!session.stdin_open());

    let (mgr, _) = PackageManager::new(&catalog, ElevationMode::Root, &names(&["pkg"])).unwrap();
    let (session, line) = mgr.uninstall(&names(&["cowsay"]));
    println!("uninstall: {}", line);
    assert_eq!(line, "pkg autoremove -y cowsay && exit\n");
    assert!(!session.stdin_open());
}

#[test]
fn mod_pkgmgr_test() {
    let passwd = String::from("PASSWD");
    let catalog = PackageManagerCatalog::standard();
    let (mut pending, plan) = PackageManager::new_with_passwd(
        &catalog,
        passwd.clone(),
        ElevationMode::NeedSecret,
        &names(&["apt-get", "dnf"]),
    )
    .unwrap();
    println!("package manager: {}", pending.name());
    assert_eq!(pending.name(), "apt-get");
    assert_eq!(plan.program, "su");
    assert_eq!(pending.state(), AuthState::Start);
    match pending.advance(Readiness::none()) {
        AuthAction::SendSecret(line) => assert_eq!(line, "PASSWD\n"),
        _ => panic!("the secret goes first"),
    }
    assert!(matches!(pending.advance(Readiness::none()), AuthAction::SendProbe { .. }));
    assert!(matches!(
        pending.advance(Readiness { stdout: true, stderr: false }),
        AuthAction::Done(_)
    ));
    let mgr = pending.finish().unwrap();
    assert_eq!(mgr.name(), "apt-get");
    assert_eq!(mgr.descriptor().flags, "-y");
    assert!(mgr.session().elevated());
    let (_, line) = mgr.install(&names(&["cowsay"]));
    println!("install: {}", line);
    assert_eq!(line, "apt-get update -y && apt-get install -y cowsay && exit\n");

    let (mut pending, _) = PackageManager::new_with_passwd(
        &catalog,
        passwd,
        ElevationMode::NeedSecret,
        &names(&["apt-get", "dnf"]),
    )
    .unwrap();
    pending.advance(Readiness::none());
    pending.advance(Readiness::none());
    pending.advance(Readiness { stdout: true, stderr: true });
    let (_, line) = pending.finish().unwrap().uninstall(&names(&["cowsay"]));
    println!("\nuninstall: {}", line);
    assert_eq!(line, "apt-get remove -y cowsay && exit\n");
}

#[test]
fn new_needs_privileges_first() {
    let catalog = PackageManagerCatalog::standard();
    assert!(matches!(
        PackageManager::new(&catalog, ElevationMode::NeedSecret, &names(&["pkg"])),
        Err(Error::PermissionDenied)
    ));
    assert!(matches!(
        PackageManager::new(&catalog, ElevationMode::NeedSecret, &Vec::new()),
        Err(Error::PermissionDenied)
    ));
    assert!(matches!(
        PackageManager::new(&catalog, ElevationMode::Root, &Vec::new()),
        Err(Error::NotSupported)
    ));
}

#[test]
fn pending_manager_needs_the_grant() {
    let catalog = PackageManagerCatalog::standard();
    let fresh = || {
        PackageManager::new_with_passwd(
            &catalog,
            "pw".to_string(),
            ElevationMode::NeedSecret,
            &names(&["dnf"]),
        )
        .unwrap()
        .0
    };
    // not yet authenticated
    match fresh().finish() {
        Err((Error::PermissionDenied, disposal)) => {
            assert_eq!(disposal, Disposal { close_stdin: true, wait: true })
        }
        _ => panic!("a pending manager is refused"),
    }
    // denied
    let mut denied = fresh();
    denied.advance(Readiness::none());
    denied.advance(Readiness::none());
    denied.advance(Readiness { stdout: false, stderr: true });
    assert_eq!(denied.state(), AuthState::Denied);
    assert!(matches!(denied.finish(), Err((Error::PermissionDenied, _))));
    // timed out
    let mut late = fresh();
    late.advance(Readiness::none());
    late.advance(Readiness::none());
    late.advance(Readiness::none());
    assert!(matches!(late.finish(), Err((Error::PermissionDenied, _))));
    assert_eq!(fresh().abandon(), Disposal { close_stdin: true, wait: true });
}

#[test]
fn new_with_passwd_without_manager_is_not_supported() {
    let catalog = PackageManagerCatalog::standard();
    assert!(matches!(
        PackageManager::new_with_passwd(
            &catalog,
            "pw".to_string(),
            ElevationMode::NeedSecret,
            &names(&["make"])
        ),
        Err(Error::NotSupported)
    ));
}
