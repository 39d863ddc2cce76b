use vstd::prelude::*;

verus! {

/// Why an installation did not go through.
#[derive(Debug, Clone, Copy, PartialEq, Eq, Structural)]
pub enum InstallError {
    /// A required command-line argument was not given.
    MissingArgument,
    /// The command line could not be read for another reason.
    BadArgument,
    /// The package-config query tool is missing or ended with a failure.
    ExternalTool,
    /// None of the conventional library directories exists.
    NoSuitablePath,
    /// The source directory holds no dynamic library.
    NoLibraryFound,
    /// The dynamic libraries of the source directory give different names.
    AmbiguousLibraryName,
    /// The source directory could not be listed.
    SourceRead,
    /// The target directory does not exist and is not to be created.
    TargetMissing,
    /// One file could not be copied.
    CopyFailed,
    /// The descriptor file could not be written.
    WriteFailed,
}

/// The text shown for each error.
pub open spec fn message_of(e: InstallError) -> Seq<char> {
    match e {
        InstallError::MissingArgument => "Missing required arguments"@,
        InstallError::BadArgument => "Invalid arguments"@,
        InstallError::ExternalTool => "pkg-config command failed to execute successfully"@,
        InstallError::NoSuitablePath => "No suitable library path found"@,
        InstallError::NoLibraryFound => "No dylib files found in the directory"@,
        InstallError::AmbiguousLibraryName => "Multiple library names found, indicating a conflict"@,
        InstallError::SourceRead => "Failed to read source directory"@,
        InstallError::TargetMissing => "target lib directory not exists"@,
        InstallError::CopyFailed => "Failed to copy file"@,
        InstallError::WriteFailed => "Failed to write .pc file"@,
    }
}

impl InstallError {
    /// The text shown for this error.
    pub fn message(&self) -> (r: String)
        ensures
            r@ == message_of(*self),
    {
        let text: &str = match self {
            InstallError::MissingArgument => "Missing required arguments",
            InstallError::BadArgument => "Invalid arguments",
            InstallError::ExternalTool => "pkg-config command failed to execute successfully",
            InstallError::NoSuitablePath => "No suitable library path found",
            InstallError::NoLibraryFound => "No dylib files found in the directory",
            InstallError::AmbiguousLibraryName => "Multiple library names found, indicating a conflict",
            InstallError::SourceRead => "Failed to read source directory",
            InstallError::TargetMissing => "target lib directory not exists",
            InstallError::CopyFailed => "Failed to copy file",
            InstallError::WriteFailed => "Failed to write .pc file",
        };
        String::from_str(text)
    }
}

/// The status with which the process ends: 0 after a success, 1 after any error.
pub open spec fn exit_code_of(outcome: Result<(), InstallError>) -> int {
    if outcome is Ok {
        0
    } else {
        1
    }
}

/// The status with which the process ends.
pub fn exit_code(outcome: &Result<(), InstallError>) -> (code: i32)
    ensures
        code == exit_code_of(*outcome),
{
    match outcome {
        Ok(_) => 0,
        Err(_) => 1,
    }
}

} // verus!
