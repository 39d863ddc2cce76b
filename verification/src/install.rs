use vstd::prelude::*;
use crate::descriptor::{descriptor_of, generate_pc_file, pc_file_name_of, PcFile};
use crate::entry::DirEntry;
use crate::error::{exit_code_of, InstallError};
use crate::identify::{conflicting, find_library_name, no_candidate, sole_candidate};
use crate::paths::{join, joined, prefix, prefix_of};
use crate::resolve::opt_text;

verus! {

/// The resolved inputs of one installation.
#[derive(Debug, Clone)]
pub struct InstallRequest {
    pub lib_source: String,
    pub header_source: Option<String>,
    pub lib_target: String,
    pub header_target: String,
    pub pc_dir: String,
    pub name: String,
    pub version: String,
    pub description: String,
}

/// What is done about the headers.
#[derive(Debug, Clone, Copy, PartialEq, Eq, Structural)]
pub enum HeaderStep {
    /// The header directory is copied.
    Copy,
    /// A header directory was named but is not on disk: a warning, no copy.
    SkipMissing,
    /// No header directory was named: a warning, no copy.
    SkipNotGiven,
}

/// The version of a library for which none is given.
pub open spec fn default_version() -> Seq<char> {
    "0.1.0"@
}

/// The description of a library for which none is given.
pub open spec fn default_description() -> Seq<char> {
    "No description provided"@
}

/// Where the headers go by default: `include` and the library's name, below
/// the directory above the library directory.
pub open spec fn default_header_target_of(lib_target: Seq<char>, name: Seq<char>) -> Seq<char> {
    joined(joined(prefix_of(lib_target), "include"@), name)
}

/// `given`, or `default` where nothing is given.
pub open spec fn or_default(given: Option<Seq<char>>, default: Seq<char>) -> Seq<char> {
    match given {
        Some(s) => s,
        None => default,
    }
}

/// What is done about the headers of a request.
pub open spec fn header_step_of(source_given: bool, source_exists: bool) -> HeaderStep {
    if !source_given {
        HeaderStep::SkipNotGiven
    } else if source_exists {
        HeaderStep::Copy
    } else {
        HeaderStep::SkipMissing
    }
}

/// The outcome of an installation from those of its steps, taken in the order
/// descriptor, library files, header files: the first failure, or success.
pub open spec fn first_error_of(
    descriptor: Result<(), InstallError>,
    libraries: Result<(), InstallError>,
    headers: Option<Result<(), InstallError>>,
) -> Result<(), InstallError> {
    if descriptor is Err {
        descriptor
    } else if libraries is Err {
        libraries
    } else {
        match headers {
            Some(h) => h,
            None => Ok(()),
        }
    }
}

/// The text of a message about the command line: the parser's own message
/// after `Error: `, and after `Error: Missing required arguments: ` where a
/// required argument is missing.
pub open spec fn argument_message_of(missing_required: bool, parser_message: Seq<char>) -> Seq<
    char,
> {
    if missing_required {
        "Error: Missing required arguments: "@ + parser_message
    } else {
        "Error: "@ + parser_message
    }
}

/// Where the headers go by default.
pub fn default_header_target(lib_target: &str, name: &str) -> (r: String)
    ensures
        r@ == default_header_target_of(lib_target@, name@),
{
    let base: &str = prefix(lib_target);
    let root: String = join(base, "include");
    join(root.as_str(), name)
}

/// The kind of a failure to read the command line.
pub fn argument_error(missing_required: bool) -> (r: InstallError)
    ensures
        r == if missing_required {
            InstallError::MissingArgument
        } else {
            InstallError::BadArgument
        },
{
    if missing_required {
        InstallError::MissingArgument
    } else {
        InstallError::BadArgument
    }
}

/// The message about a command line that could not be read.
pub fn argument_message(missing_required: bool, parser_message: &str) -> (r: String)
    ensures
        r@ == argument_message_of(missing_required, parser_message@),
{
    let mut out: String = if missing_required {
        String::from_str("Error: Missing required arguments: ")
    } else {
        String::from_str("Error: ")
    };
    out.append(parser_message);
    out
}

/// The outcome of an installation from those of its steps.
pub fn first_error(
    descriptor: Result<(), InstallError>,
    libraries: Result<(), InstallError>,
    headers: Option<Result<(), InstallError>>,
) -> (r: Result<(), InstallError>)
    ensures
        r == first_error_of(descriptor, libraries, headers),
{
    if descriptor.is_err() {
        descriptor
    } else if libraries.is_err() {
        libraries
    } else {
        match headers {
            Some(h) => h,
            None => Ok(()),
        }
    }
}

impl InstallRequest {
    /// Resolves the inputs of an installation. An explicit name is taken as it
    /// is; without one the name is inferred from `lib_entries`, the listing of
    /// the source directory, and where that fails no request comes about.
    /// Version and description fall back to their defaults, the header target
    /// to `include/<name>` beside the library directory. `lib_entries` is read
    /// only where no name is given.
    pub fn resolve(
        lib_source: String,
        header_source: Option<String>,
        lib_target: String,
        pc_dir: String,
        name: Option<String>,
        version: Option<String>,
        description: Option<String>,
        header_target: Option<String>,
        lib_entries: &Vec<DirEntry>,
    ) -> (r: Result<InstallRequest, InstallError>)
        ensures
            match name {
                Some(n) => r is Ok && r->Ok_0.name@ == n@,
                None => match r {
                    Ok(q) => sole_candidate(lib_entries@, q.name@),
                    Err(InstallError::NoLibraryFound) => no_candidate(lib_entries@),
                    Err(InstallError::AmbiguousLibraryName) => conflicting(lib_entries@),
                    Err(_) => false,
                },
            },
            match r {
                Ok(q) => {
                    &&& q.lib_source@ == lib_source@
                    &&& opt_text(q.header_source) == opt_text(header_source)
                    &&& q.lib_target@ == lib_target@
                    &&& q.pc_dir@ == pc_dir@
                    &&& q.version@ == or_default(opt_text(version), default_version())
                    &&& q.description@ == or_default(opt_text(description), default_description())
                    &&& q.header_target@ == or_default(
                        opt_text(header_target),
                        default_header_target_of(lib_target@, q.name@),
                    )
                },
                Err(e) => exit_code_of(Err(e)) == 1,
            },
    {
        let name: String = match name {
            Some(n) => n,
            None => match find_library_name(lib_entries) {
                Ok(n) => n,
                Err(e) => {
                    return Err(e);
                },
            },
        };
        let version: String = match version {
            Some(v) => v,
            None => String::from_str("0.1.0"),
        };
        let description: String = match description {
            Some(d) => d,
            None => String::from_str("No description provided"),
        };
        let header_target: String = match header_target {
            Some(t) => t,
            None => default_header_target(lib_target.as_str(), name.as_str()),
        };
        Ok(
            InstallRequest {
                lib_source,
                header_source,
                lib_target,
                header_target,
                pc_dir,
                name,
                version,
                description,
            },
        )
    }

    /// The descriptor file of this request.
    pub fn descriptor(&self) -> (r: PcFile)
        ensures
            r.path@ == joined(self.pc_dir@, pc_file_name_of(self.name@)),
            r.content@ == descriptor_of(
                self.lib_target@,
                self.name@,
                self.description@,
                self.version@,
            ),
    {
        generate_pc_file(
            self.lib_target.as_str(),
            self.pc_dir.as_str(),
            self.name.as_str(),
            self.version.as_str(),
            self.description.as_str(),
        )
    }

    /// What is done about the headers, given whether the header directory is
    /// on disk. `source_exists` is read only where a header directory is named.
    pub fn header_step(&self, source_exists: bool) -> (r: HeaderStep)
        ensures
            r == header_step_of(self.header_source is Some, source_exists),
    {
        match &self.header_source {
            None => HeaderStep::SkipNotGiven,
            Some(_) => if source_exists {
                HeaderStep::Copy
            } else {
                HeaderStep::SkipMissing
            },
        }
    }
}

/// Every failure ends the process with status 1, and only success with 0.
pub proof fn lemma_exit_code(outcome: Result<(), InstallError>)
    ensures
        exit_code_of(outcome) == 1 <==> outcome is Err,
        exit_code_of(outcome) == 0 <==> outcome is Ok,
{
}

/// An installation succeeds exactly where each of its steps does, and a
/// failure of the descriptor goes before one of the library files, which goes
/// before one of the header files.
pub proof fn lemma_first_error(
    descriptor: Result<(), InstallError>,
    libraries: Result<(), InstallError>,
    headers: Option<Result<(), InstallError>>,
)
    ensures
        first_error_of(descriptor, libraries, headers) is Ok <==> descriptor is Ok && libraries is Ok
            && (headers is None || headers->Some_0 is Ok),
        descriptor is Err ==> first_error_of(descriptor, libraries, headers) == descriptor,
        descriptor is Ok && libraries is Err ==> first_error_of(descriptor, libraries, headers)
            == libraries,
{
}

} // verus!
