use vstd::prelude::*;
use crate::error::InstallError;
use crate::text::{find_first, first_index_of, trim, trimmed};

verus! {

/// How the run of the package-config query tool ended.
#[derive(Debug, Clone)]
pub enum ToolRun {
    /// The tool could not be started.
    Unavailable,
    /// The tool ran: whether it reported success, and what it wrote.
    Exited { success: bool, stdout: String },
}

/// The first of the colon-separated entries of the tool's output, without the
/// white space around it.
pub open spec fn first_entry(output: Seq<char>) -> Seq<char> {
    trimmed(output.take(first_index_of(output, ':')))
}

/// The environment's library directory: the first of the three variables that
/// is set, in the order given, else `/usr/local/lib`.
pub open spec fn env_choice(
    first: Option<Seq<char>>,
    second: Option<Seq<char>>,
    third: Option<Seq<char>>,
) -> Seq<char> {
    match first {
        Some(p) => p,
        None => match second {
            Some(p) => p,
            None => match third {
                Some(p) => p,
                None => "/usr/local/lib"@,
            },
        },
    }
}

/// The conventional library directories, in the order in which they are tried.
pub open spec fn fallback_dir(k: int) -> Seq<char> {
    if k == 0 {
        "/usr/local/lib"@
    } else if k == 1 {
        "/usr/lib"@
    } else if k == 2 {
        "/lib"@
    } else if k == 3 {
        "/usr/lib64"@
    } else {
        "/lib64"@
    }
}

/// How many conventional library directories there are.
pub const FALLBACK_COUNT: usize = 5;

/// `k` is the first conventional directory that exists.
pub open spec fn is_first_existing(exists: Seq<bool>, k: int) -> bool {
    0 <= k < exists.len() && exists[k] && forall|j: int| 0 <= j < k ==> !exists[j]
}

/// The view of an optional text.
pub open spec fn opt_text(o: Option<String>) -> Option<Seq<char>> {
    match o {
        Some(s) => Some(s@),
        None => None,
    }
}

/// Reads the descriptor directory from the tool's output.
pub fn parse_pc_path(stdout: &str) -> (r: String)
    ensures
        r@ == first_entry(stdout@),
{
    let k: usize = find_first(stdout, ':');
    String::from_str(trim(stdout.substring_char(0, k)))
}

/// The descriptor directory that the query tool reports. Fails with
/// `ExternalTool` exactly where the tool could not be started or reported a
/// failure.
pub fn get_pc_path(run: &ToolRun) -> (r: Result<String, InstallError>)
    ensures
        match *run {
            ToolRun::Exited { success: true, stdout } => r is Ok && r->Ok_0@ == first_entry(
                stdout@,
            ),
            _ => r is Err && r->Err_0 == InstallError::ExternalTool,
        },
{
    match run {
        ToolRun::Exited { success, stdout } => {
            if *success {
                Ok(parse_pc_path(stdout.as_str()))
            } else {
                Err(InstallError::ExternalTool)
            }
        },
        ToolRun::Unavailable => Err(InstallError::ExternalTool),
    }
}

/// The descriptor directory: the explicit one where it is given, unchanged and
/// unchecked; else the one that the query tool reports. `run` is read only
/// where no explicit directory is given.
pub fn resolve_descriptor_dir(explicit: Option<String>, run: &ToolRun) -> (r: Result<
    String,
    InstallError,
>)
    ensures
        match explicit {
            Some(p) => r is Ok && r->Ok_0@ == p@,
            None => match *run {
                ToolRun::Exited { success: true, stdout } => r is Ok && r->Ok_0@ == first_entry(
                    stdout@,
                ),
                _ => r is Err && r->Err_0 == InstallError::ExternalTool,
            },
        },
{
    match explicit {
        Some(p) => Ok(p),
        None => get_pc_path(run),
    }
}

/// The library directory that the environment names: the first of the three
/// variables that is set, else `/usr/local/lib`.
pub fn env_library_path(
    first: Option<String>,
    second: Option<String>,
    third: Option<String>,
) -> (r: String)
    ensures
        r@ == env_choice(opt_text(first), opt_text(second), opt_text(third)),
{
    match first {
        Some(p) => p,
        None => match second {
            Some(p) => p,
            None => match third {
                Some(p) => p,
                None => String::from_str("/usr/local/lib"),
            },
        },
    }
}

/// The `k`-th conventional library directory.
pub fn fallback(k: usize) -> (r: &'static str)
    ensures
        r@ == fallback_dir(k as int),
{
    if k == 0 {
        "/usr/local/lib"
    } else if k == 1 {
        "/usr/lib"
    } else if k == 2 {
        "/lib"
    } else if k == 3 {
        "/usr/lib64"
    } else {
        "/lib64"
    }
}

/// The default library directory. `env_path` is the directory that the
/// environment names and `env_exists` says whether it is on disk;
/// `fallback_exists` says the same of each conventional directory. Returns
/// `env_path` where it exists, else the first conventional directory that
/// exists, and fails with `NoSuitablePath` exactly where none does.
pub fn get_system_lib_path(env_path: String, env_exists: bool, fallback_exists: &[bool; 5]) -> (r:
    Result<String, InstallError>)
    ensures
        match r {
            Ok(p) => if env_exists {
                p@ == env_path@
            } else {
                exists|k: int| #[trigger]
                    is_first_existing(fallback_exists@, k) && p@ == fallback_dir(k)
            },
            Err(e) => e == InstallError::NoSuitablePath && !env_exists && forall|k: int|
                0 <= k < FALLBACK_COUNT ==> !fallback_exists@[k],
        },
{
    if env_exists {
        return Ok(env_path);
    }
    let mut k: usize = 0;
    while k < FALLBACK_COUNT
        invariant
            k <= FALLBACK_COUNT,
            !env_exists,
            forall|j: int| 0 <= j < k ==> !fallback_exists@[j],
        decreases FALLBACK_COUNT - k,
    {
        if fallback_exists[k] {
            assert(is_first_existing(fallback_exists@, k as int));
            return Ok(String::from_str(fallback(k)));
        }
        k = k + 1;
    }
    Err(InstallError::NoSuitablePath)
}

/// The library directory: the explicit one where it is given, unchanged and
/// unchecked; else the default one. The other arguments are read only where no
/// explicit directory is given.
pub fn resolve_library_dir(
    explicit: Option<String>,
    env_path: String,
    env_exists: bool,
    fallback_exists: &[bool; 5],
) -> (r: Result<String, InstallError>)
    ensures
        match explicit {
            Some(x) => r is Ok && r->Ok_0@ == x@,
            None => match r {
                Ok(p) => if env_exists {
                    p@ == env_path@
                } else {
                    exists|k: int| #[trigger]
                        is_first_existing(fallback_exists@, k) && p@ == fallback_dir(k)
                },
                Err(e) => e == InstallError::NoSuitablePath && !env_exists && forall|k: int|
                    0 <= k < FALLBACK_COUNT ==> !fallback_exists@[k],
            },
        },
{
    match explicit {
        Some(x) => Ok(x),
        None => get_system_lib_path(env_path, env_exists, fallback_exists),
    }
}

} // verus!
