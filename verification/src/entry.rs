use vstd::prelude::*;
use crate::text::{find_last, last_index_of, lemma_last_index_of_holds};

verus! {

/// One entry of a directory listing: its file name and whether it is a directory.
#[derive(Debug, Clone)]
pub struct DirEntry {
    pub name: String,
    pub is_dir: bool,
}

/// Where a file name splits into stem and extension: at its last dot, unless
/// that dot opens the name or the name is `..`. -1 where it does not split.
pub open spec fn split_point(name: Seq<char>) -> int {
    let i = last_index_of(name, '.');
    if name == ".."@ || i <= 0 {
        -1
    } else {
        i
    }
}

/// The extension of a file name: what follows its last dot. A name without a
/// dot, or whose only dot opens it, has none.
pub open spec fn extension_of(name: Seq<char>) -> Option<Seq<char>> {
    let i = split_point(name);
    if i < 0 {
        None
    } else {
        Some(name.skip(i + 1))
    }
}

/// The stem of a file name: what stands before its last dot, or the whole name
/// where it has no extension.
pub open spec fn stem_of(name: Seq<char>) -> Seq<char> {
    let i = split_point(name);
    if i < 0 {
        name
    } else {
        name.take(i)
    }
}

/// Finds where `name` splits into stem and extension.
pub fn find_split(name: &str) -> (r: Option<usize>)
    ensures
        match r {
            Some(i) => split_point(name@) == i && 0 < i < name@.len(),
            None => split_point(name@) == -1,
        },
{
    if crate::text::str_eq(name, "..") {
        return None;
    }
    match find_last(name, '.') {
        Some(i) => if i == 0 {
            None
        } else {
            Some(i)
        },
        None => None,
    }
}

/// The extension of `name`, if it has one.
pub fn extension(name: &str) -> (r: Option<&str>)
    ensures
        match r {
            Some(e) => extension_of(name@) == Some(e@),
            None => extension_of(name@) is None,
        },
{
    match find_split(name) {
        Some(i) => {
            let n: usize = name.unicode_len();
            proof {
                assert(name@.skip(i + 1) =~= name@.subrange(i + 1, n as int));
            }
            Some(name.substring_char(i + 1, n))
        },
        None => None,
    }
}

/// The stem of `name`.
pub fn file_stem(name: &str) -> (r: &str)
    ensures
        r@ == stem_of(name@),
{
    match find_split(name) {
        Some(i) => name.substring_char(0, i),
        None => name,
    }
}

/// A name with an extension is its stem, a dot and the extension; the
/// extension holds no dot and the stem is not empty.
pub proof fn lemma_stem_and_extension(name: Seq<char>)
    ensures
        match extension_of(name) {
            Some(x) => {
                &&& name == stem_of(name) + seq!['.'] + x
                &&& stem_of(name).len() > 0
                &&& forall|i: int| 0 <= i < x.len() ==> x[i] != '.'
            },
            None => stem_of(name) == name,
        },
{
    lemma_last_index_of_holds(name, '.');
    let at = split_point(name);
    if at >= 0 {
        let x = name.skip(at + 1);
        assert(name =~= name.take(at) + seq!['.'] + x);
        assert forall|i: int| 0 <= i < x.len() implies x[i] != '.' by {
            assert(x[i] == name[at + 1 + i]);
        }
    }
}

} // verus!
