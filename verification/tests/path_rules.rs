use dylib_installer::paths::{final_segment, join, parent, prefix};
use std::path::Path;

fn samples() -> Vec<&'static str> {
    vec![
        "", "/", "//", "///", ".", "..", "...", "./", "./.", "././", "/.", "/./", "/..", "/../",
        "a", "a/", "a//", "a/.", "a/./", "a/..", "a/b", "a//b", "a/./b", "a/b/", "a/b/.",
        "a/b/./", "a/b//.//", "/a", "/a/", "/a/b", "//a", "//a//b", "/a/./b", "/./a", "/./a/b",
        "./a", "./a/b", ".//a", "././a", "../a", "../..", "a/../b", ".a", ".a/b", "a/.b",
        "..a", "a..", "a./b", "/tmp/out/lib", "/tmp/out/lib/", "/tmp/out/lib64", "/usr/lib",
        "/tmp//out/./lib/", "lib", "lib64", "/lib", "/lib64/.", "é/ü", "/é/", "a b/c d",
    ]
}

#[test]
fn final_segment_agrees_with_std() {
    for p in samples() {
        let expected = Path::new(p).file_name().and_then(|s| s.to_str());
        assert_eq!(final_segment(p), expected, "{:?}", p);
    }
}

#[test]
fn parent_agrees_with_std() {
    for p in samples() {
        let expected = Path::new(p).parent().and_then(|s| s.to_str());
        assert_eq!(parent(p), expected, "{:?}", p);
    }
}

#[test]
fn join_agrees_with_std() {
    for base in samples() {
        for rest in samples() {
            let expected = Path::new(base).join(rest);
            assert_eq!(Some(join(base, rest).as_str()), expected.to_str(), "{:?} {:?}", base, rest);
        }
    }
}

#[test]
fn final_segment_examples() {
    assert_eq!(final_segment("/tmp/out/lib"), Some("lib"));
    assert_eq!(final_segment("/tmp/out/lib64/"), Some("lib64"));
    assert_eq!(final_segment("/usr/lib/."), Some("lib"));
    assert_eq!(final_segment("/"), None);
    assert_eq!(final_segment(""), None);
    assert_eq!(final_segment("/usr/.."), None);
}

#[test]
fn parent_examples() {
    assert_eq!(parent("/tmp/out/lib"), Some("/tmp/out"));
    assert_eq!(parent("/tmp/out//lib/"), Some("/tmp/out"));
    assert_eq!(parent("/lib"), Some("/"));
    assert_eq!(parent("lib"), Some(""));
    assert_eq!(parent("./lib"), Some("."));
    assert_eq!(parent("/"), None);
    assert_eq!(parent(""), None);
    assert_eq!(prefix("/"), "/");
    assert_eq!(prefix(""), "");
}

#[test]
fn join_examples() {
    assert_eq!(join("/tmp/out/pc", "foo.pc"), "/tmp/out/pc/foo.pc");
    assert_eq!(join("/tmp/out/pc/", "foo.pc"), "/tmp/out/pc/foo.pc");
    assert_eq!(join("", "foo.pc"), "foo.pc");
    assert_eq!(join("/pc", "/abs.pc"), "/abs.pc");
    assert_eq!(join("/pc", ""), "/pc/");
}
