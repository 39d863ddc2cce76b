use dylib_installer::entry::DirEntry;
use dylib_installer::error::{exit_code, InstallError};
use dylib_installer::install::{
    argument_error, argument_message, default_header_target, first_error, HeaderStep,
    InstallRequest,
};
use dylib_installer::resolve::{
    env_library_path, fallback, get_pc_path, get_system_lib_path, parse_pc_path,
    resolve_descriptor_dir, resolve_library_dir, ToolRun, FALLBACK_COUNT,
};

fn lib(name: &str) -> DirEntry {
    DirEntry { name: name.to_string(), is_dir: false }
}

fn request(name: Option<&str>, entries: &Vec<DirEntry>) -> Result<InstallRequest, InstallError> {
    InstallRequest::resolve(
        "/src/lib".to_string(),
        None,
        "/tmp/out/lib".to_string(),
        "/tmp/out/pc".to_string(),
        name.map(|n| n.to_string()),
        None,
        None,
        None,
        entries,
    )
}

#[test]
fn first_entry_of_the_tool_output() {
    assert_eq!(parse_pc_path("/usr/lib/pkgconfig:/usr/share/pkgconfig\n"), "/usr/lib/pkgconfig");
    assert_eq!(parse_pc_path("/usr/lib/pkgconfig\n"), "/usr/lib/pkgconfig");
    assert_eq!(parse_pc_path(" /a :/b"), "/a");
    assert_eq!(parse_pc_path(":/b"), "");
    assert_eq!(parse_pc_path(""), "");
}

#[test]
fn tool_failure_is_an_error() {
    assert_eq!(get_pc_path(&ToolRun::Unavailable), Err(InstallError::ExternalTool));
    let failed = ToolRun::Exited { success: false, stdout: "/usr/lib/pkgconfig\n".to_string() };
    assert_eq!(get_pc_path(&failed), Err(InstallError::ExternalTool));
    let ok = ToolRun::Exited { success: true, stdout: "/x/pc:/y\n".to_string() };
    assert_eq!(get_pc_path(&ok), Ok("/x/pc".to_string()));
}

#[test]
fn explicit_descriptor_dir_is_returned_unchanged() {
    let r = resolve_descriptor_dir(Some("relative/../pc".to_string()), &ToolRun::Unavailable);
    assert_eq!(r, Ok("relative/../pc".to_string()));
    let ok = ToolRun::Exited { success: true, stdout: "/x/pc:/y\n".to_string() };
    assert_eq!(resolve_descriptor_dir(None, &ok), Ok("/x/pc".to_string()));
    assert_eq!(resolve_descriptor_dir(None, &ToolRun::Unavailable), Err(InstallError::ExternalTool));
}

#[test]
fn environment_variables_in_priority_order() {
    let a = Some("/a".to_string());
    let b = Some("/b".to_string());
    let c = Some("/c".to_string());
    assert_eq!(env_library_path(a.clone(), b.clone(), c.clone()), "/a");
    assert_eq!(env_library_path(None, b.clone(), c.clone()), "/b");
    assert_eq!(env_library_path(None, None, c.clone()), "/c");
    assert_eq!(env_library_path(None, None, None), "/usr/local/lib");
    assert_eq!(env_library_path(a, None, c), "/a");
}

#[test]
fn fallback_directories_in_order() {
    assert_eq!(FALLBACK_COUNT, 5);
    assert_eq!(fallback(0), "/usr/local/lib");
    assert_eq!(fallback(1), "/usr/lib");
    assert_eq!(fallback(2), "/lib");
    assert_eq!(fallback(3), "/usr/lib64");
    assert_eq!(fallback(4), "/lib64");
}

#[test]
fn existing_environment_path_wins() {
    let r = get_system_lib_path("/my/lib".to_string(), true, &[true, true, true, true, true]);
    assert_eq!(r, Ok("/my/lib".to_string()));
    let r = get_system_lib_path("/my/lib".to_string(), true, &[false; 5]);
    assert_eq!(r, Ok("/my/lib".to_string()));
}

#[test]
fn first_existing_fallback_is_taken() {
    let r = get_system_lib_path("/my/lib".to_string(), false, &[false, false, true, true, false]);
    assert_eq!(r, Ok("/lib".to_string()));
    let r = get_system_lib_path("/my/lib".to_string(), false, &[true, false, false, false, false]);
    assert_eq!(r, Ok("/usr/local/lib".to_string()));
    let r = get_system_lib_path("/my/lib".to_string(), false, &[false, false, false, false, true]);
    assert_eq!(r, Ok("/lib64".to_string()));
}

#[test]
fn no_fallback_is_an_error() {
    let r = get_system_lib_path("/my/lib".to_string(), false, &[false; 5]);
    assert_eq!(r, Err(InstallError::NoSuitablePath));
}

#[test]
fn explicit_library_dir_is_returned_unchanged() {
    let r = resolve_library_dir(Some("/nowhere".to_string()), "/e".to_string(), false, &[false; 5]);
    assert_eq!(r, Ok("/nowhere".to_string()));
    let r = resolve_library_dir(None, "/e".to_string(), false, &[false, true, false, false, false]);
    assert_eq!(r, Ok("/usr/lib".to_string()));
    let r = resolve_library_dir(None, "/e".to_string(), false, &[false; 5]);
    assert_eq!(r, Err(InstallError::NoSuitablePath));
}

#[test]
fn request_takes_defaults() {
    let entries = vec![lib("libfoo.dylib"), lib("libfoo.a")];
    let q = request(None, &entries).unwrap();
    assert_eq!(q.name, "foo");
    assert_eq!(q.version, "0.1.0");
    assert_eq!(q.description, "No description provided");
    assert_eq!(q.header_target, "/tmp/out/include/foo");
    assert_eq!(q.lib_source, "/src/lib");
    assert_eq!(q.lib_target, "/tmp/out/lib");
    assert_eq!(q.pc_dir, "/tmp/out/pc");
    assert_eq!(q.header_source, None);
    let file = q.descriptor();
    assert_eq!(file.path, "/tmp/out/pc/foo.pc");
    assert_eq!(
        file.content,
        "prefix=/tmp/out\nlibdir=${prefix}/lib\nincludedir=${prefix}/include\n\nName: foo\nDescription: No description provided\nVersion: 0.1.0\nLibs: -L${libdir} -lfoo\nCflags: -I${includedir}"
    );
}

#[test]
fn request_keeps_explicit_values() {
    let q = InstallRequest::resolve(
        "/src".to_string(),
        Some("/src/headers".to_string()),
        "/usr/lib64".to_string(),
        "/pc".to_string(),
        Some("bar".to_string()),
        Some("3.1".to_string()),
        Some("Bar library".to_string()),
        Some("/usr/include/custom".to_string()),
        &vec![lib("libfoo.dylib"), lib("libother.dylib")],
    )
    .unwrap();
    assert_eq!(q.name, "bar");
    assert_eq!(q.version, "3.1");
    assert_eq!(q.description, "Bar library");
    assert_eq!(q.header_target, "/usr/include/custom");
    assert_eq!(q.header_source, Some("/src/headers".to_string()));
    assert_eq!(q.header_step(true), HeaderStep::Copy);
    assert_eq!(q.header_step(false), HeaderStep::SkipMissing);
}

#[test]
fn request_fails_without_a_library() {
    let r = request(None, &vec![lib("libfoo.a")]);
    assert_eq!(r.as_ref().err(), Some(&InstallError::NoLibraryFound));
    assert_eq!(exit_code(&r.map(|_| ())), 1);
}

#[test]
fn request_fails_on_conflicting_libraries() {
    let r = request(None, &vec![lib("libfoo.dylib"), lib("libbar.dylib")]);
    assert_eq!(r.as_ref().err(), Some(&InstallError::AmbiguousLibraryName));
    assert_eq!(exit_code(&r.map(|_| ())), 1);
}

#[test]
fn header_step_without_a_source() {
    let q = request(Some("foo"), &Vec::new()).unwrap();
    assert_eq!(q.header_step(true), HeaderStep::SkipNotGiven);
    assert_eq!(q.header_step(false), HeaderStep::SkipNotGiven);
}

#[test]
fn default_header_target_is_beside_the_library_dir() {
    assert_eq!(default_header_target("/tmp/out/lib", "foo"), "/tmp/out/include/foo");
    assert_eq!(default_header_target("/usr/lib64", "bar"), "/usr/include/bar");
    assert_eq!(default_header_target("/", "bar"), "/include/bar");
    assert_eq!(default_header_target("lib", "bar"), "include/bar");
}

#[test]
fn first_failure_in_join_order() {
    let w = Err(InstallError::WriteFailed);
    let t = Err(InstallError::TargetMissing);
    let c = Err(InstallError::CopyFailed);
    assert_eq!(first_error(Ok(()), Ok(()), None), Ok(()));
    assert_eq!(first_error(Ok(()), Ok(()), Some(Ok(()))), Ok(()));
    assert_eq!(first_error(w, t, Some(c)), w);
    assert_eq!(first_error(Ok(()), t, Some(c)), t);
    assert_eq!(first_error(Ok(()), Ok(()), Some(c)), c);
    assert_eq!(first_error(w, Ok(()), None), w);
}

#[test]
fn exit_codes() {
    assert_eq!(exit_code(&Ok(())), 0);
    for e in [
        InstallError::MissingArgument,
        InstallError::BadArgument,
        InstallError::ExternalTool,
        InstallError::NoSuitablePath,
        InstallError::NoLibraryFound,
        InstallError::AmbiguousLibraryName,
        InstallError::SourceRead,
        InstallError::TargetMissing,
        InstallError::CopyFailed,
        InstallError::WriteFailed,
    ] {
        assert_eq!(exit_code(&Err(e)), 1);
        assert!(!e.message().is_empty());
    }
}

#[test]
fn error_messages() {
    assert_eq!(InstallError::NoLibraryFound.message(), "No dylib files found in the directory");
    assert_eq!(
        InstallError::AmbiguousLibraryName.message(),
        "Multiple library names found, indicating a conflict"
    );
    assert_eq!(InstallError::NoSuitablePath.message(), "No suitable library path found");
    assert_eq!(InstallError::WriteFailed.message(), "Failed to write .pc file");
}

#[test]
fn argument_errors() {
    assert_eq!(argument_error(true), InstallError::MissingArgument);
    assert_eq!(argument_error(false), InstallError::BadArgument);
    assert_eq!(argument_message(true, "x"), "Error: Missing required arguments: x");
    assert_eq!(argument_message(false, "x"), "Error: x");
}
