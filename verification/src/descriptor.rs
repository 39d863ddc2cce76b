use vstd::prelude::*;
use crate::paths::{
    body_end, final_segment, final_segment_of, is_plain_segment, join, joined,
    lemma_segment_below, prefix, prefix_of,
};
use crate::text::str_eq;

verus! {

/// A descriptor file that is ready to be written: where it goes and what it holds.
#[derive(Debug, Clone)]
pub struct PcFile {
    pub path: String,
    pub content: String,
}

/// The name of the library directory below the prefix: `lib64` where the target
/// directory's final segment is `lib64`, and `lib` for every other segment.
pub open spec fn suffix_of(last: Option<Seq<char>>) -> Seq<char> {
    if last == Some("lib64"@) {
        "lib64"@
    } else {
        "lib"@
    }
}

/// The descriptor's text.
pub open spec fn pc_text(
    prefix: Seq<char>,
    suffix: Seq<char>,
    name: Seq<char>,
    description: Seq<char>,
    version: Seq<char>,
) -> Seq<char> {
    "prefix="@ + prefix + "\nlibdir=${prefix}/"@ + suffix
        + "\nincludedir=${prefix}/include\n\nName: "@ + name + "\nDescription: "@ + description
        + "\nVersion: "@ + version + "\nLibs: -L${libdir} -l"@ + name
        + "\nCflags: -I${includedir}"@
}

/// The descriptor's text for a library installed in `lib_target`: the prefix is
/// the directory above it, the suffix goes by its final segment.
pub open spec fn descriptor_of(
    lib_target: Seq<char>,
    name: Seq<char>,
    description: Seq<char>,
    version: Seq<char>,
) -> Seq<char> {
    pc_text(
        prefix_of(lib_target),
        suffix_of(final_segment_of(lib_target)),
        name,
        description,
        version,
    )
}

/// The descriptor's file name: the library's name and `.pc`.
pub open spec fn pc_file_name_of(name: Seq<char>) -> Seq<char> {
    name + ".pc"@
}

/// Picks the name of the library directory from the target directory's final
/// segment.
pub fn libdir_suffix(last: Option<&str>) -> (r: &'static str)
    ensures
        r@ == suffix_of(
            match last {
                Some(s) => Some(s@),
                None => None,
            },
        ),
{
    match last {
        Some(s) => {
            if str_eq(s, "lib64") {
                "lib64"
            } else {
                "lib"
            }
        },
        None => "lib",
    }
}

/// Renders the descriptor's text from the prefix, the final segment of the
/// target directory and the library's metadata.
pub fn render_pc(
    prefix: &str,
    last: Option<&str>,
    name: &str,
    description: &str,
    version: &str,
) -> (r: String)
    ensures
        r@ == pc_text(
            prefix@,
            suffix_of(
                match last {
                    Some(s) => Some(s@),
                    None => None,
                },
            ),
            name@,
            description@,
            version@,
        ),
{
    let suffix: &str = libdir_suffix(last);
    let mut out: String = String::from_str("prefix=");
    out.append(prefix);
    out.append("\nlibdir=${prefix}/");
    out.append(suffix);
    out.append("\nincludedir=${prefix}/include\n\nName: ");
    out.append(name);
    out.append("\nDescription: ");
    out.append(description);
    out.append("\nVersion: ");
    out.append(version);
    out.append("\nLibs: -L${libdir} -l");
    out.append(name);
    out.append("\nCflags: -I${includedir}");
    out
}

/// The descriptor's file name.
pub fn pc_file_name(name: &str) -> (r: String)
    ensures
        r@ == pc_file_name_of(name@),
{
    let mut out: String = String::from_str(name);
    out.append(".pc");
    out
}

/// Prepares the descriptor of a library installed under `lib_target_path`: its
/// text, and its place in `pc_path`.
pub fn generate_pc_file(
    lib_target_path: &str,
    pc_path: &str,
    library_name: &str,
    version: &str,
    description: &str,
) -> (r: PcFile)
    ensures
        r.path@ == joined(pc_path@, pc_file_name_of(library_name@)),
        r.content@ == descriptor_of(lib_target_path@, library_name@, description@, version@),
{
    let last: Option<&str> = final_segment(lib_target_path);
    let base: &str = prefix(lib_target_path);
    let content: String = render_pc(base, last, library_name, description, version);
    let file: String = pc_file_name(library_name);
    PcFile { path: join(pc_path, file.as_str()), content }
}

/// The suffix is `lib64` exactly for the segment `lib64`, and `lib` for every
/// other segment and where there is none.
pub proof fn lemma_suffix(last: Option<Seq<char>>)
    ensures
        suffix_of(last) == "lib64"@ <==> last == Some("lib64"@),
        suffix_of(last) == "lib"@ <==> last != Some("lib64"@),
        last == Some("lib"@) ==> suffix_of(last) == "lib"@,
{
    reveal_strlit("lib");
    reveal_strlit("lib64");
    assert("lib"@.len() != "lib64"@.len());
}

/// For a library directory that is a plain segment below `dir`, the descriptor
/// names `dir` as the prefix, and `lib64` as the library directory exactly
/// where the segment is `lib64`.
pub proof fn lemma_descriptor_below(
    dir: Seq<char>,
    segment: Seq<char>,
    name: Seq<char>,
    description: Seq<char>,
    version: Seq<char>,
)
    requires
        is_plain_segment(segment),
        dir.len() > 0,
        body_end(dir, dir.len() as int) == dir.len(),
    ensures
        descriptor_of(joined(dir, segment), name, description, version) == pc_text(
            dir,
            if segment == "lib64"@ {
                "lib64"@
            } else {
                "lib"@
            },
            name,
            description,
            version,
        ),
{
    lemma_segment_below(dir, segment);
}

/// Generation reads nothing but its inputs: the same target directory and
/// metadata, character for character, give the same text.
pub proof fn lemma_descriptor_repeatable(
    lib_target_a: Seq<char>,
    name_a: Seq<char>,
    description_a: Seq<char>,
    version_a: Seq<char>,
    lib_target_b: Seq<char>,
    name_b: Seq<char>,
    description_b: Seq<char>,
    version_b: Seq<char>,
)
    requires
        lib_target_a =~= lib_target_b,
        name_a =~= name_b,
        description_a =~= description_b,
        version_a =~= version_b,
    ensures
        descriptor_of(lib_target_a, name_a, description_a, version_a) == descriptor_of(
            lib_target_b,
            name_b,
            description_b,
            version_b,
        ),
        pc_file_name_of(name_a) == pc_file_name_of(name_b),
{
}

} // verus!
