use updater::archive::{entry_name_ambiguous, plan_extract, ArchiveEntry};
use updater::errors::UpdateErrorKind;

fn file(name: &str) -> ArchiveEntry {
    ArchiveEntry { name: String::from(name), is_dir: false }
}

fn dir(name: &str) -> ArchiveEntry {
    ArchiveEntry { name: String::from(name), is_dir: true }
}

#[test]
fn bundle_with_one_executable_plans_its_install() {
    let entries = vec![dir("bin"), file("bin/readme.txt"), file("bin/app.exe")];
    let plan = plan_extract(&entries).expect("an executable is present");
    assert_eq!(plan.executable.as_str(), "bin/app.exe");
    let names: Vec<&str> = plan.writes.iter().map(|w| w.as_str()).collect();
    assert_eq!(names, vec!["bin", "bin/readme.txt", "bin/app.exe"]);
}

#[test]
fn first_of_several_executables_is_installed() {
    let entries = vec![file("a.exe"), file("b.exe")];
    let plan = plan_extract(&entries).expect("executables are present");
    assert_eq!(plan.executable.as_str(), "a.exe");
}

#[test]
fn directory_only_bundle_has_no_executable() {
    let entries = vec![dir("bin"), dir("bin/assets"), file("bin/notes.txt")];
    let e = plan_extract(&entries).expect_err("nothing installable");
    assert_eq!(e.kind(), UpdateErrorKind::NoExecutableInArchive);
}

#[test]
fn empty_bundle_has_no_executable() {
    let entries: Vec<ArchiveEntry> = vec![];
    let e = plan_extract(&entries).expect_err("nothing installable");
    assert_eq!(e.kind(), UpdateErrorKind::NoExecutableInArchive);
}

#[test]
fn traversal_entry_is_not_written() {
    let entries = vec![file("../evil.txt"), file("app.exe")];
    let plan = plan_extract(&entries).expect("the safe executable is present");
    assert_eq!(plan.executable.as_str(), "app.exe");
    let names: Vec<&str> = plan.writes.iter().map(|w| w.as_str()).collect();
    assert_eq!(names, vec!["app.exe"]);
}

#[test]
fn traversal_executable_does_not_count_as_installable() {
    let entries = vec![file("..\\app.exe")];
    let e = plan_extract(&entries).expect_err("an escaping executable is skipped");
    assert_eq!(e.kind(), UpdateErrorKind::NoExecutableInArchive);
}

#[test]
fn ambiguous_names_are_recognized() {
    assert!(entry_name_ambiguous(""));
    assert!(entry_name_ambiguous("/abs/path"));
    assert!(entry_name_ambiguous("\\abs\\path"));
    assert!(entry_name_ambiguous("C:\\windows\\app.exe"));
    assert!(entry_name_ambiguous("../up.txt"));
    assert!(entry_name_ambiguous("a/../b.txt"));
    assert!(entry_name_ambiguous("a\\..\\b.txt"));
    assert!(entry_name_ambiguous("a/.."));
    assert!(entry_name_ambiguous(".."));
    assert!(!entry_name_ambiguous("a/b.txt"));
    assert!(!entry_name_ambiguous("..a/b..txt"));
    assert!(!entry_name_ambiguous("a..b"));
    assert!(!entry_name_ambiguous("app.exe"));
}
