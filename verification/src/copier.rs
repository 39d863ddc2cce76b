use vstd::prelude::*;
use crate::entry::{extension, extension_of, DirEntry};
use crate::error::InstallError;
use crate::text::str_eq;

verus! {

/// What a copy has to do: whether the target directory is created first, and
/// the names of the files that go into it, in the order of the listing.
#[derive(Debug, Clone)]
pub struct CopyPlan {
    pub create_target: bool,
    pub files: Vec<String>,
}

/// The extensions as texts.
pub open spec fn ext_views(allowed: Seq<String>) -> Seq<Seq<char>> {
    allowed.map_values(|s: String| s@)
}

/// Whether an entry is copied: a file whose extension is one of `allowed`.
pub open spec fn copies(e: DirEntry, allowed: Seq<Seq<char>>) -> bool {
    !e.is_dir && match extension_of(e.name@) {
        Some(x) => allowed.contains(x),
        None => false,
    }
}

/// The entries of a listing that are copied, in the order of the listing.
pub open spec fn selected(entries: Seq<DirEntry>, allowed: Seq<Seq<char>>) -> Seq<DirEntry> {
    entries.filter(|e: DirEntry| copies(e, allowed))
}

/// The extensions of the files that make up a library: static archive, dynamic
/// library and linker metadata.
pub open spec fn lib_extensions() -> Seq<Seq<char>> {
    seq!["a"@, "dylib"@, "d"@]
}

/// The extension of header files.
pub open spec fn header_extensions() -> Seq<Seq<char>> {
    seq!["h"@]
}

/// Whether `plan` names the files of `chosen`, one for one.
pub open spec fn names_match(files: Seq<String>, chosen: Seq<DirEntry>) -> bool {
    files.len() == chosen.len() && forall|k: int|
        0 <= k < files.len() ==> (#[trigger] files[k])@ == chosen[k].name@
}

/// Tests whether an entry is copied.
pub fn should_copy(e: &DirEntry, allowed: &Vec<String>) -> (r: bool)
    ensures
        r == copies(*e, ext_views(allowed@)),
{
    if e.is_dir {
        return false;
    }
    match extension(e.name.as_str()) {
        Some(x) => {
            let mut k: usize = 0;
            while k < allowed.len()
                invariant
                    k <= allowed.len(),
                    !e.is_dir,
                    extension_of(e.name@) == Some(x@),
                    forall|j: int| 0 <= j < k ==> ext_views(allowed@)[j] != x@,
                decreases allowed.len() - k,
            {
                if str_eq(allowed[k].as_str(), x) {
                    proof {
                        let views = ext_views(allowed@);
                        assert(views.len() == allowed@.len());
                        assert(views[k as int] == x@);
                        assert(views.contains(x@));
                    }
                    return true;
                }
                k = k + 1;
            }
            false
        },
        None => false,
    }
}

/// Decides what is done about the target directory: `Ok(true)` where it has to
/// be created, `Ok(false)` where it is there, and `TargetMissing` where it is
/// absent and must not be created.
pub fn check_target(target_exists: bool, create_target_if_missing: bool) -> (r: Result<
    bool,
    InstallError,
>)
    ensures
        r == if target_exists {
            Ok::<bool, InstallError>(false)
        } else if create_target_if_missing {
            Ok::<bool, InstallError>(true)
        } else {
            Err::<bool, InstallError>(InstallError::TargetMissing)
        },
{
    if target_exists {
        Ok(false)
    } else if create_target_if_missing {
        Ok(true)
    } else {
        Err(InstallError::TargetMissing)
    }
}

/// Plans the copy of a listed source directory into a target directory. Fails
/// with `TargetMissing`, and plans nothing, exactly where the target is absent
/// and must not be created. Else the plan names the files of the listing whose
/// extension is allowed, and no other entry.
pub fn copy_filtered(
    entries: &Vec<DirEntry>,
    target_exists: bool,
    allowed: &Vec<String>,
    create_target_if_missing: bool,
) -> (r: Result<CopyPlan, InstallError>)
    ensures
        r is Err <==> !target_exists && !create_target_if_missing,
        match r {
            Ok(plan) => plan.create_target == !target_exists && names_match(
                plan.files@,
                selected(entries@, ext_views(allowed@)),
            ),
            Err(e) => e == InstallError::TargetMissing,
        },
{
    let create_target: bool = match check_target(target_exists, create_target_if_missing) {
        Ok(c) => c,
        Err(e) => {
            return Err(e);
        },
    };
    let ghost pred = |e: DirEntry| copies(e, ext_views(allowed@));
    let mut files: Vec<String> = Vec::new();
    let mut i: usize = 0;
    proof {
        reveal(Seq::filter);
        assert(entries@.take(0) =~= Seq::<DirEntry>::empty());
    }
    while i < entries.len()
        invariant
            i <= entries.len(),
            pred == |e: DirEntry| copies(e, ext_views(allowed@)),
            names_match(files@, entries@.take(i as int).filter(pred)),
        decreases entries.len() - i,
    {
        let e: &DirEntry = &entries[i];
        let take: bool = should_copy(e, allowed);
        proof {
            reveal(Seq::filter);
            assert(entries@.take(i + 1).drop_last() =~= entries@.take(i as int));
            assert(entries@.take(i + 1).last() == entries@[i as int]);
        }
        if take {
            files.push(e.name.clone());
        }
        i = i + 1;
    }
    proof {
        assert(entries@.take(i as int) =~= entries@);
    }
    Ok(CopyPlan { create_target, files })
}

/// The extensions of library files.
pub fn lib_allowed() -> (r: Vec<String>)
    ensures
        ext_views(r@) =~= lib_extensions(),
{
    let mut r: Vec<String> = Vec::new();
    r.push(String::from_str("a"));
    r.push(String::from_str("dylib"));
    r.push(String::from_str("d"));
    r
}

/// The extension of header files.
pub fn header_allowed() -> (r: Vec<String>)
    ensures
        ext_views(r@) =~= header_extensions(),
{
    let mut r: Vec<String> = Vec::new();
    r.push(String::from_str("h"));
    r
}

/// Plans the copy of the library files. The target directory is never
/// created: where it is absent the copy fails with `TargetMissing`.
pub fn copy_lib_files(entries: &Vec<DirEntry>, target_exists: bool) -> (r: Result<
    CopyPlan,
    InstallError,
>)
    ensures
        r is Err <==> !target_exists,
        match r {
            Ok(plan) => !plan.create_target && names_match(
                plan.files@,
                selected(entries@, lib_extensions()),
            ),
            Err(e) => e == InstallError::TargetMissing,
        },
{
    let allowed: Vec<String> = lib_allowed();
    copy_filtered(entries, target_exists, &allowed, false)
}

/// Plans the copy of the header files. It never fails: an absent target
/// directory is created.
pub fn copy_header_files(entries: &Vec<DirEntry>, target_exists: bool) -> (r: Result<
    CopyPlan,
    InstallError,
>)
    ensures
        match r {
            Ok(plan) => plan.create_target == !target_exists && names_match(
                plan.files@,
                selected(entries@, header_extensions()),
            ),
            Err(_) => false,
        },
{
    let allowed: Vec<String> = header_allowed();
    copy_filtered(entries, target_exists, &allowed, true)
}

/// Every selected entry is a file with an allowed extension, and an entry that
/// is a directory or has another extension is not among the selected.
pub proof fn lemma_selected_only_allowed(entries: Seq<DirEntry>, allowed: Seq<Seq<char>>)
    ensures
        forall|k: int|
            0 <= k < selected(entries, allowed).len() ==> copies(
                #[trigger] selected(entries, allowed)[k],
                allowed,
            ),
        forall|e: DirEntry| !copies(e, allowed) ==> !(#[trigger] selected(entries, allowed).contains(e)),
        forall|i: int|
            0 <= i < entries.len() && copies(entries[i], allowed) ==> selected(
                entries,
                allowed,
            ).contains(#[trigger] entries[i]),
        selected(entries, allowed).len() <= entries.len(),
{
    let pred = |e: DirEntry| copies(e, allowed);
    let sel = entries.filter(pred);
    entries.lemma_filter_len(pred);
    assert forall|k: int| 0 <= k < sel.len() implies copies(#[trigger] sel[k], allowed) by {
        entries.lemma_filter_pred(pred, k);
    }
    assert forall|i: int| 0 <= i < entries.len() && copies(entries[i], allowed) implies sel.contains(
        #[trigger] entries[i],
    ) by {
        entries.lemma_filter_contains(pred, i);
    }
    assert forall|e: DirEntry| !copies(e, allowed) implies !(#[trigger] sel.contains(e)) by {
        if sel.contains(e) {
            let k = choose|k: int| 0 <= k < sel.len() && sel[k] == e;
            assert(copies(sel[k], allowed));
        }
    }
}

} // verus!
