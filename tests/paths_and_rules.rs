use dcspkg::error::Stage;
use dcspkg::install::check_descriptor;
use dcspkg::error::ErrorKind;
use dcspkg::package::Package;
use dcspkg::paths::{is_plain_name, join_path, path_stays_inside};
use dcspkg::registry::{check_registration, Lookup, RegistryError};

#[test]
fn relative_paths_inside() {
    assert!(path_stays_inside(b"bin/foo"));
    assert!(path_stays_inside(b"./bin/foo"));
    assert!(path_stays_inside(b"..a/b"));
    assert!(path_stays_inside(b"a/b.."));
}

#[test]
fn escaping_paths_outside() {
    assert!(!path_stays_inside(b""));
    assert!(!path_stays_inside(b".."));
    assert!(!path_stays_inside(b"../a"));
    assert!(!path_stays_inside(b"a/../b"));
    assert!(!path_stays_inside(b"a/.."));
    assert!(!path_stays_inside(b"/usr/bin"));
}

#[test]
fn plain_names() {
    assert!(is_plain_name(b"gcc"));
    assert!(is_plain_name(b"..."));
    assert!(!is_plain_name(b""));
    assert!(!is_plain_name(b"."));
    assert!(!is_plain_name(b".."));
    assert!(!is_plain_name(b"a/b"));
}

#[test]
fn joining_paths() {
    assert_eq!(join_path("/opt/pkgs", "bin"), "/opt/pkgs/bin");
    assert_eq!(join_path("", "x"), "/x");
}

fn package(name: &str, exe: Option<&str>, add_to_path: bool) -> Package {
    Package {
        pkgname: name.to_string(),
        fullname: "Foo".to_string(),
        executable_path: exe.map(|e| e.to_string()),
        add_to_path,
        ..Package::default()
    }
}

#[test]
fn descriptor_checks() {
    assert_eq!(check_descriptor(&package("foo", None, false)), Ok(()));
    assert_eq!(check_descriptor(&package("foo", Some("bin/foo"), true)), Ok(()));
    assert_eq!(check_descriptor(&package("foo", Some("../foo"), false)), Ok(()));
    let bad = Err(ErrorKind::MisconfiguredPackage);
    assert_eq!(check_descriptor(&package("foo", None, true)), bad);
    assert_eq!(check_descriptor(&package("foo", Some("../foo"), true)), bad);
    assert_eq!(check_descriptor(&package("../foo", None, false)), bad);
    assert_eq!(check_descriptor(&package("", None, false)), bad);
}

#[test]
fn stage_labels() {
    assert_eq!(Stage::GetPackageData.context(), "could not get package data from server");
    assert_eq!(Stage::InstallFile.context(), "could not install file");
    assert_eq!(Stage::CreateLink.context(), "could not create symbolic link to package executable");
}

#[test]
fn registration_rules() {
    assert_eq!(check_registration(Lookup::Absent), Ok(()));
    assert_eq!(check_registration(Lookup::Present), Err(RegistryError::AlreadyExists));
    assert_eq!(check_registration(Lookup::Failed), Err(RegistryError::Database));
}
