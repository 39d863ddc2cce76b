use vstd::prelude::*;
use crate::entry::{extension, extension_of, file_stem, stem_of, DirEntry};
use crate::error::InstallError;
use crate::text::{
    find_first, first_index_of, has_prefix, lemma_first_index_of, lemma_first_index_of_holds,
    lemma_last_index_of, starts_with, str_eq,
};

verus! {

/// Whether an entry is a dynamic library: a file with the extension `dylib`.
pub open spec fn is_dylib(e: DirEntry) -> bool {
    !e.is_dir && extension_of(e.name@) == Some("dylib"@)
}

/// A stem without one leading `lib`.
pub open spec fn strip_lib(stem: Seq<char>) -> Seq<char> {
    if has_prefix(stem, "lib"@) {
        stem.skip(3)
    } else {
        stem
    }
}

/// The library name that a file name stands for: its stem, without one leading
/// `lib`, up to the first dot.
pub open spec fn candidate_name(file_name: Seq<char>) -> Seq<char> {
    let s = strip_lib(stem_of(file_name));
    s.take(first_index_of(s, '.'))
}

/// Some dynamic library of the listing stands for the name `n`.
pub open spec fn has_candidate(entries: Seq<DirEntry>, n: Seq<char>) -> bool {
    exists|i: int|
        0 <= i < entries.len() && is_dylib(#[trigger] entries[i]) && candidate_name(
            entries[i].name@,
        ) == n
}

/// The dynamic libraries of the listing stand for `n` and for no other name.
pub open spec fn sole_candidate(entries: Seq<DirEntry>, n: Seq<char>) -> bool {
    has_candidate(entries, n) && forall|m: Seq<char>| #[trigger]
        has_candidate(entries, m) ==> m == n
}

/// The listing holds no dynamic library.
pub open spec fn no_candidate(entries: Seq<DirEntry>) -> bool {
    forall|i: int| 0 <= i < entries.len() ==> !is_dylib(#[trigger] entries[i])
}

/// Two dynamic libraries of the listing stand for different names.
pub open spec fn conflicting(entries: Seq<DirEntry>) -> bool {
    exists|m1: Seq<char>, m2: Seq<char>|
        #[trigger] has_candidate(entries, m1) && #[trigger] has_candidate(entries, m2) && m1 != m2
}

/// Tests whether an entry is a dynamic library.
pub fn entry_is_dylib(e: &DirEntry) -> (r: bool)
    ensures
        r == is_dylib(*e),
{
    if e.is_dir {
        return false;
    }
    match extension(e.name.as_str()) {
        Some(x) => str_eq(x, "dylib"),
        None => false,
    }
}

/// The library name that `file_name` stands for.
pub fn candidate(file_name: &str) -> (r: &str)
    ensures
        r@ == candidate_name(file_name@),
{
    let stem: &str = file_stem(file_name);
    let n: usize = stem.unicode_len();
    let s: &str = if starts_with(stem, "lib") {
        proof {
            reveal_strlit("lib");
            assert(stem@.skip(3) =~= stem@.subrange(3, n as int));
        }
        stem.substring_char(3, n)
    } else {
        stem
    };
    let k: usize = find_first(s, '.');
    s.substring_char(0, k)
}

/// Infers the library's name from a listing of the source directory. Returns
/// the one name that its dynamic libraries stand for; fails where there is no
/// dynamic library, and where two of them stand for different names.
pub fn find_library_name(entries: &Vec<DirEntry>) -> (r: Result<String, InstallError>)
    ensures
        match r {
            Ok(n) => sole_candidate(entries@, n@),
            Err(InstallError::NoLibraryFound) => no_candidate(entries@),
            Err(InstallError::AmbiguousLibraryName) => conflicting(entries@),
            Err(_) => false,
        },
        no_candidate(entries@) <==> r == Err::<String, InstallError>(InstallError::NoLibraryFound),
        conflicting(entries@) <==> r == Err::<String, InstallError>(
            InstallError::AmbiguousLibraryName,
        ),
        r is Ok <==> exists|n: Seq<char>| sole_candidate(entries@, n),
{
    proof {
        lemma_outcomes_exclusive(entries@);
    }
    let mut found: Option<String> = None;
    let ghost mut w: int = 0;
    let mut i: usize = 0;
    while i < entries.len()
        invariant
            i <= entries.len(),
            match found {
                None => forall|j: int| 0 <= j < i ==> !is_dylib(#[trigger] entries@[j]),
                Some(n) => {
                    &&& 0 <= w < i
                    &&& is_dylib(entries@[w])
                    &&& candidate_name(entries@[w].name@) == n@
                    &&& forall|j: int|
                        0 <= j < i && is_dylib(#[trigger] entries@[j]) ==> candidate_name(
                            entries@[j].name@,
                        ) == n@
                },
            },
        decreases entries.len() - i,
    {
        let e: &DirEntry = &entries[i];
        if entry_is_dylib(e) {
            let c: &str = candidate(e.name.as_str());
            match &found {
                Some(n) => {
                    if !str_eq(n.as_str(), c) {
                        proof {
                            assert(is_dylib(entries@[w]));
                            assert(is_dylib(entries@[i as int]));
                            assert(has_candidate(entries@, n@));
                            assert(has_candidate(entries@, c@));
                        }
                        return Err(InstallError::AmbiguousLibraryName);
                    }
                },
                None => {
                    found = Some(String::from_str(c));
                    proof {
                        w = i as int;
                    }
                },
            }
        }
        i = i + 1;
    }
    match found {
        Some(n) => {
            proof {
                assert(is_dylib(entries@[w]));
                assert(has_candidate(entries@, n@));
            }
            Ok(n)
        },
        None => Err(InstallError::NoLibraryFound),
    }
}

/// Of the three outcomes of name inference exactly one holds of a listing: no
/// dynamic library, one name, or a conflict. So each outcome is returned on its
/// listings and on no others.
pub proof fn lemma_outcomes_exclusive(entries: Seq<DirEntry>)
    ensures
        no_candidate(entries) || conflicting(entries) || exists|n: Seq<char>|
            sole_candidate(entries, n),
        !(no_candidate(entries) && conflicting(entries)),
        forall|n: Seq<char>|
            sole_candidate(entries, n) ==> !no_candidate(entries) && !conflicting(entries),
{
    if !no_candidate(entries) {
        let i = choose|i: int| 0 <= i < entries.len() && is_dylib(#[trigger] entries[i]);
        let n = candidate_name(entries[i].name@);
        assert(has_candidate(entries, n));
        if !conflicting(entries) {
            assert(sole_candidate(entries, n));
        }
    }
}

/// A candidate name holds no dot.
pub proof fn lemma_candidate_has_no_dot(file_name: Seq<char>)
    ensures
        forall|i: int|
            0 <= i < candidate_name(file_name).len() ==> candidate_name(file_name)[i] != '.',
{
    lemma_first_index_of_holds(strip_lib(stem_of(file_name)), '.');
}

/// A listing whose one dynamic library is named `lib`, a base name without a
/// dot, and `.dylib` gives that base name.
pub proof fn lemma_single_library(entries: Seq<DirEntry>, k: int, base: Seq<char>)
    requires
        0 <= k < entries.len(),
        !entries[k].is_dir,
        entries[k].name@ == "lib"@ + base + ".dylib"@,
        forall|j: int| 0 <= j < base.len() ==> base[j] != '.',
        forall|j: int| 0 <= j < entries.len() && j != k ==> !is_dylib(#[trigger] entries[j]),
    ensures
        is_dylib(entries[k]),
        candidate_name(entries[k].name@) == base,
        sole_candidate(entries, base),
{
    reveal_strlit("lib");
    reveal_strlit(".dylib");
    reveal_strlit("dylib");
    reveal_strlit("..");
    let name = entries[k].name@;
    let at = 3 + base.len() as int;
    assert(name.len() == at + 6);
    assert(name[at] == '.');
    assert forall|j: int| at < j < name.len() implies name[j] != '.' by {
        assert(name[j] == ".dylib"@[j - at]);
    }
    lemma_last_index_of(name, '.', at);
    assert(name.skip(at + 1) =~= "dylib"@);
    assert(name.take(at) =~= "lib"@ + base);
    let stem = stem_of(name);
    assert(stem.take(3) =~= "lib"@);
    assert(stem.skip(3) =~= base);
    lemma_first_index_of(base, '.', base.len() as int);
    assert(base.take(base.len() as int) =~= base);
    assert(has_candidate(entries, base));
}

} // verus!
