use dylib_installer::copier::{
    check_target, copy_filtered, copy_header_files, copy_lib_files, header_allowed, lib_allowed,
    should_copy,
};
use dylib_installer::entry::DirEntry;
use dylib_installer::error::InstallError;

fn entry(name: &str, is_dir: bool) -> DirEntry {
    DirEntry { name: name.to_string(), is_dir }
}

fn listing() -> Vec<DirEntry> {
    vec![
        entry("libfoo.dylib", false),
        entry("notes.txt", false),
        entry("libfoo.a", false),
        entry("nested.a", true),
        entry("foo.h", false),
        entry("libfoo.d", false),
        entry("libfoo.so", false),
        entry("a", false),
        entry("include.h", true),
    ]
}

#[test]
fn allowed_extensions() {
    assert_eq!(lib_allowed(), vec!["a".to_string(), "dylib".to_string(), "d".to_string()]);
    assert_eq!(header_allowed(), vec!["h".to_string()]);
}

#[test]
fn should_copy_reads_kind_and_extension() {
    let allowed = lib_allowed();
    assert!(should_copy(&entry("libfoo.a", false), &allowed));
    assert!(should_copy(&entry("libfoo.dylib", false), &allowed));
    assert!(should_copy(&entry("libfoo.d", false), &allowed));
    assert!(!should_copy(&entry("libfoo.a", true), &allowed));
    assert!(!should_copy(&entry("libfoo.h", false), &allowed));
    assert!(!should_copy(&entry("a", false), &allowed));
    assert!(!should_copy(&entry(".a", false), &allowed));
    assert!(!should_copy(&entry("libfoo.a", false), &Vec::new()));
}

#[test]
fn target_decision() {
    assert_eq!(check_target(true, false), Ok(false));
    assert_eq!(check_target(true, true), Ok(false));
    assert_eq!(check_target(false, true), Ok(true));
    assert_eq!(check_target(false, false), Err(InstallError::TargetMissing));
}

#[test]
fn library_copy_takes_library_files_only() {
    let plan = copy_lib_files(&listing(), true).unwrap();
    assert!(!plan.create_target);
    assert_eq!(plan.files, vec!["libfoo.dylib", "libfoo.a", "libfoo.d"]);
}

#[test]
fn library_copy_fails_without_target() {
    let r = copy_lib_files(&listing(), false);
    assert_eq!(r.unwrap_err(), InstallError::TargetMissing);
}

#[test]
fn header_copy_takes_headers_only() {
    let plan = copy_header_files(&listing(), true).unwrap();
    assert!(!plan.create_target);
    assert_eq!(plan.files, vec!["foo.h"]);
}

#[test]
fn header_copy_creates_a_missing_target() {
    let plan = copy_header_files(&listing(), false).unwrap();
    assert!(plan.create_target);
    assert_eq!(plan.files, vec!["foo.h"]);
}

#[test]
fn filtered_copy_with_other_extensions() {
    let allowed = vec!["txt".to_string(), "so".to_string()];
    let plan = copy_filtered(&listing(), false, &allowed, true).unwrap();
    assert!(plan.create_target);
    assert_eq!(plan.files, vec!["notes.txt", "libfoo.so"]);
    let r = copy_filtered(&listing(), false, &allowed, false);
    assert_eq!(r.unwrap_err(), InstallError::TargetMissing);
}

#[test]
fn empty_listing_gives_an_empty_plan() {
    let plan = copy_lib_files(&Vec::new(), true).unwrap();
    assert!(plan.files.is_empty());
}

#[test]
fn end_to_end_library_files() {
    let entries = vec![entry("libfoo.dylib", false), entry("libfoo.a", false)];
    let plan = copy_lib_files(&entries, true).unwrap();
    assert_eq!(plan.files, vec!["libfoo.dylib", "libfoo.a"]);
}
