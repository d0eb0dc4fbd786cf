use limit_up::catalog::{ManagerKind, PackageManagerCatalog, PackageManagerDescriptor};
use limit_up::error::Error;

fn pkgs(names: &[&str]) -> Vec<String> {
    names.iter().map(|n| n.to_string()).collect()
}

#[test]
fn install_renders_update_then_install() {
    let d = ManagerKind::Apt.descriptor();
    assert_eq!(
        d.install(&pkgs(&["curl"])),
        "apt-get update -y && apt-get install -y curl && exit"
    );
    let d = ManagerKind::Pacman.descriptor();
    assert_eq!(
        d.install(&pkgs(&["curl", "git"])),
        "pacman -Sy --noconfirm && pacman -S --noconfirm curl git && exit"
    );
    let d = ManagerKind::Pkg.descriptor();
    assert_eq!(
        d.install(&pkgs(&["elixir"])),
        "pkg update -y && pkg install -y elixir && exit"
    );
}

#[test]
fn install_with_empty_flags_keeps_the_gap() {
    let d = ManagerKind::Apk.descriptor();
    assert_eq!(d.install(&pkgs(&["curl"])), "apk update  && apk add  curl && exit");
    assert_eq!(d.uninstall(&pkgs(&["curl"])), "apk del  curl && exit");
}

#[test]
fn uninstall_renders_one_call() {
    assert_eq!(
        ManagerKind::Dnf.descriptor().uninstall(&pkgs(&["cowsay"])),
        "dnf remove -y cowsay && exit"
    );
    assert_eq!(
        ManagerKind::Zypper.descriptor().uninstall(&pkgs(&["a", "b", "c"])),
        "zypper remove -y a b c && exit"
    );
    assert_eq!(
        ManagerKind::Pkg.descriptor().uninstall(&pkgs(&["cowsay"])),
        "pkg autoremove -y cowsay && exit"
    );
    assert_eq!(
        ManagerKind::Pacman.descriptor().uninstall(&pkgs(&["cowsay"])),
        "pacman -Rns --noconfirm cowsay && exit"
    );
}

#[test]
fn manager_without_update_installs_in_one_call() {
    let d = PackageManagerDescriptor {
        name: "brew",
        install: "install",
        uninstall: "uninstall",
        update: None,
        flags: "-q",
    };
    assert_eq!(d.install(&pkgs(&["curl"])), "brew install -q curl && exit");
    assert_eq!(d.uninstall(&pkgs(&["curl"])), "brew uninstall -q curl && exit");
}

#[test]
fn every_descriptor_holds_list_flag_and_exit() {
    let list = pkgs(&["first-pkg", "second-pkg"]);
    for kind in ManagerKind::all() {
        let d = kind.descriptor();
        for out in [d.install(&list), d.uninstall(&list)] {
            assert_eq!(out.matches("first-pkg second-pkg").count(), 1);
            assert!(out.contains(d.flags));
            assert!(out.ends_with("&& exit"));
            assert!(out.starts_with(d.name));
        }
    }
}

#[test]
fn empty_package_list_renders_empty_slot() {
    assert_eq!(
        ManagerKind::Dnf.descriptor().install(&Vec::new()),
        "dnf update -y && dnf install -y  && exit"
    );
}

#[test]
fn priority_order_is_fixed() {
    assert_eq!(
        ManagerKind::all(),
        vec![
            ManagerKind::Apt,
            ManagerKind::Dnf,
            ManagerKind::Pacman,
            ManagerKind::Zypper,
            ManagerKind::Apk,
            ManagerKind::Pkg
        ]
    );
    let catalog = PackageManagerCatalog::standard();
    assert_eq!(catalog.len(), 6);
    let names: Vec<&str> = (0..catalog.len()).map(|i| catalog.get(i).name()).collect();
    assert_eq!(names, vec!["apt-get", "dnf", "pacman", "zypper", "apk", "pkg"]);
}

#[test]
fn select_takes_the_first_installed() {
    let catalog = PackageManagerCatalog::standard();
    let found = catalog.select(&pkgs(&["pkg", "zypper", "dnf"])).unwrap();
    assert_eq!(found.name, "dnf");
    let found = catalog.select(&pkgs(&["apk", "ls", "apt-get"])).unwrap();
    assert_eq!(found.name, "apt-get");
    let found = catalog.select(&pkgs(&["pkg"])).unwrap();
    assert_eq!(found.name, "pkg");
}

#[test]
fn select_is_deterministic() {
    let catalog = PackageManagerCatalog::standard();
    let path = pkgs(&["sh", "pacman", "apk"]);
    let first = catalog.select(&path).unwrap();
    let second = catalog.select(&path).unwrap();
    assert_eq!(first.name, second.name);
    assert_eq!(first.name, "pacman");
    // the same programs in another order and number
    let shuffled = pkgs(&["apk", "apk", "pacman", "sh"]);
    assert_eq!(catalog.select(&shuffled).unwrap().name, "pacman");
}

#[test]
fn select_without_manager_is_not_supported() {
    let catalog = PackageManagerCatalog::standard();
    assert!(matches!(catalog.select(&pkgs(&["sh", "ls", "apt"])), Err(Error::NotSupported)));
    assert!(matches!(catalog.select(&Vec::new()), Err(Error::NotSupported)));
    let empty = PackageManagerCatalog::new(Vec::new());
    assert!(matches!(empty.select(&pkgs(&["apt-get"])), Err(Error::NotSupported)));
}

#[test]
fn custom_catalog_keeps_its_order() {
    let catalog = PackageManagerCatalog::new(vec![
        ManagerKind::Pkg.descriptor(),
        ManagerKind::Apt.descriptor(),
    ]);
    assert_eq!(catalog.select(&pkgs(&["apt-get", "pkg"])).unwrap().name, "pkg");
}

fn positions(hay: &str, needle: &str) -> Vec<usize> {
    (0..hay.len()).filter(|i| hay[*i..].starts_with(needle)).collect()
}

#[test]
fn package_list_stands_once_in_its_slot() {
    for list in [pkgs(&["curl"]), pkgs(&["curl", "git"]), pkgs(&["first-pkg", "second-pkg"])] {
        let joined = list.join(" ");
        for kind in ManagerKind::all() {
            let d = kind.descriptor();
            let install = d.install(&list);
            let head = install.len() - joined.len() - " && exit".len();
            assert_eq!(positions(&install, &joined), vec![head]);
            let uninstall = d.uninstall(&list);
            let head = uninstall.len() - joined.len() - " && exit".len();
            assert_eq!(positions(&uninstall, &joined), vec![head]);
        }
    }
}

#[test]
fn a_list_that_borrows_from_the_flag_occurs_twice() {
    let line = ManagerKind::Dnf.descriptor().uninstall(&pkgs(&["y", "y"]));
    assert_eq!(line, "dnf remove -y y y && exit");
    assert_eq!(positions(&line, "y y"), vec![12, 14]);
}
