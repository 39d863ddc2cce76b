use dylib_installer::descriptor::{generate_pc_file, libdir_suffix, pc_file_name, render_pc};
use dylib_installer::paths::prefix;

#[test]
fn suffix_is_lib64_only_for_lib64() {
    assert_eq!(libdir_suffix(Some("lib64")), "lib64");
    assert_eq!(libdir_suffix(Some("lib")), "lib");
    assert_eq!(libdir_suffix(Some("lib32")), "lib");
    assert_eq!(libdir_suffix(Some("LIB64")), "lib");
    assert_eq!(libdir_suffix(Some("lib64 ")), "lib");
    assert_eq!(libdir_suffix(Some("")), "lib");
    assert_eq!(libdir_suffix(None), "lib");
}

#[test]
fn rendered_text_is_exact() {
    let text = render_pc("/opt/x", Some("lib64"), "foo", "A library", "1.2.3");
    assert_eq!(
        text,
        "prefix=/opt/x\nlibdir=${prefix}/lib64\nincludedir=${prefix}/include\n\nName: foo\nDescription: A library\nVersion: 1.2.3\nLibs: -L${libdir} -lfoo\nCflags: -I${includedir}"
    );
}

#[test]
fn rendered_text_with_empty_fields() {
    let text = render_pc("", None, "", "", "");
    assert_eq!(
        text,
        "prefix=\nlibdir=${prefix}/lib\nincludedir=${prefix}/include\n\nName: \nDescription: \nVersion: \nLibs: -L${libdir} -l\nCflags: -I${includedir}"
    );
}

#[test]
fn file_name_ends_in_pc() {
    assert_eq!(pc_file_name("foo"), "foo.pc");
    assert_eq!(pc_file_name(""), ".pc");
}

#[test]
fn prefix_is_the_parent_directory() {
    assert_eq!(prefix("/tmp/out/lib"), "/tmp/out");
    assert_eq!(prefix("/tmp/out/lib/"), "/tmp/out");
    assert_eq!(prefix("/usr/lib64"), "/usr");
    assert_eq!(prefix("lib"), "");
    assert_eq!(prefix("/"), "/");
    assert_eq!(prefix(""), "");
}

#[test]
fn end_to_end_descriptor() {
    let file = generate_pc_file("/tmp/out/lib", "/tmp/out/pc", "foo", "0.1.0", "No description provided");
    assert_eq!(file.path, "/tmp/out/pc/foo.pc");
    let lines: Vec<&str> = file.content.split('\n').collect();
    assert!(lines.contains(&"prefix=/tmp/out"));
    assert!(lines.contains(&"libdir=${prefix}/lib"));
    assert!(lines.contains(&"Version: 0.1.0"));
    assert!(lines.contains(&"Description: No description provided"));
    assert!(lines.contains(&"Libs: -L${libdir} -lfoo"));
    assert_eq!(
        file.content,
        "prefix=/tmp/out\nlibdir=${prefix}/lib\nincludedir=${prefix}/include\n\nName: foo\nDescription: No description provided\nVersion: 0.1.0\nLibs: -L${libdir} -lfoo\nCflags: -I${includedir}"
    );
}

#[test]
fn descriptor_for_a_lib64_target() {
    let file = generate_pc_file("/usr/lib64", "/usr/lib64/pkgconfig", "bar", "2.0", "Bar");
    assert_eq!(file.path, "/usr/lib64/pkgconfig/bar.pc");
    assert!(file.content.starts_with("prefix=/usr\nlibdir=${prefix}/lib64\n"));
    let file = generate_pc_file("/usr/lib64/", "/pc/", "bar", "2.0", "Bar");
    assert_eq!(file.path, "/pc/bar.pc");
    assert!(file.content.starts_with("prefix=/usr\nlibdir=${prefix}/lib64\n"));
}

#[test]
fn descriptor_for_another_target_uses_lib() {
    let file = generate_pc_file("/opt/homebrew/Cellar", "/pc", "bar", "2.0", "Bar");
    assert!(file.content.starts_with("prefix=/opt/homebrew\nlibdir=${prefix}/lib\n"));
    let file = generate_pc_file("/", "/pc", "bar", "2.0", "Bar");
    assert!(file.content.starts_with("prefix=/\nlibdir=${prefix}/lib\n"));
}

#[test]
fn generating_twice_gives_the_same_file() {
    let a = generate_pc_file("/tmp/out/lib64", "/tmp/out/pc", "foo", "1.0", "d");
    let b = generate_pc_file("/tmp/out/lib64", "/tmp/out/pc", "foo", "1.0", "d");
    assert_eq!(a.path, b.path);
    assert_eq!(a.content.as_bytes(), b.content.as_bytes());
}
