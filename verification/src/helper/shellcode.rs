//! Judging an attempt to load the payload.

use vstd::prelude::*;
use vstd::string::*;

verus! {

/// Why the payload file could not be read.
#[derive(Clone, Copy, Debug, PartialEq, Eq, Structural)]
pub enum ReadFailure {
    /// There is no file at the path.
    NotFound,
    /// The file may not be read.
    PermissionDenied,
    /// Anything else.
    Other,
}

/// Why there is no payload.
#[derive(Clone, Copy, Debug, PartialEq, Eq, Structural)]
pub enum ShellcodeError {
    /// No path was given.
    PathMissing,
    /// There is no file at the path.
    NotFound,
    /// The file may not be read.
    PermissionDenied,
    /// The file could not be read for another reason.
    Unreadable,
}

impl ShellcodeError {
    /// The text shown to the user for this failure.
    pub open spec fn message_text(self) -> Seq<char> {
        match self {
            ShellcodeError::PathMissing =>
                "First positional shellcode path argument not supplied."@,
            ShellcodeError::NotFound => "Input file not found."@,
            ShellcodeError::PermissionDenied => "Permission to input file denied."@,
            ShellcodeError::Unreadable => "Shellcode parsing failed."@,
        }
    }

    pub fn message(self) -> (text: String)
        ensures
            text@ == self.message_text(),
    {
        match self {
            ShellcodeError::PathMissing => String::from_str(
                "First positional shellcode path argument not supplied.",
            ),
            ShellcodeError::NotFound => String::from_str("Input file not found."),
            ShellcodeError::PermissionDenied => String::from_str(
                "Permission to input file denied.",
            ),
            ShellcodeError::Unreadable => String::from_str("Shellcode parsing failed."),
        }
    }
}

/// What a failed read is reported as: a missing file and a forbidden one
/// each keep a kind of their own, every other failure shares one.
pub open spec fn reported(failure: ReadFailure) -> ShellcodeError {
    match failure {
        ReadFailure::NotFound => ShellcodeError::NotFound,
        ReadFailure::PermissionDenied => ShellcodeError::PermissionDenied,
        ReadFailure::Other => ShellcodeError::Unreadable,
    }
}

/// Turns an attempt to read the payload file into the payload. `read` is
/// nothing where no path was given, and else what reading the file at the
/// path gave. The bytes that were read are the payload, as they are.
pub fn parse_shellcode_path(read: Option<Result<Vec<u8>, ReadFailure>>) -> (parsed: Result<
    Vec<u8>,
    ShellcodeError,
>)
    ensures
        match read {
            None => parsed == Err::<Vec<u8>, ShellcodeError>(ShellcodeError::PathMissing),
            Some(Err(failure)) => parsed == Err::<Vec<u8>, ShellcodeError>(reported(failure)),
            Some(Ok(raw_contents)) => parsed == Ok::<Vec<u8>, ShellcodeError>(raw_contents),
        },
        read matches Some(Ok(raw_contents)) ==> parsed is Ok && parsed->Ok_0@ == raw_contents@,
{
    match read {
        Some(Ok(raw_contents)) => Ok(raw_contents),
        Some(Err(failure)) => match failure {
            ReadFailure::NotFound => Err(ShellcodeError::NotFound),
            ReadFailure::PermissionDenied => Err(ShellcodeError::PermissionDenied),
            ReadFailure::Other => Err(ShellcodeError::Unreadable),
        },
        None => Err(ShellcodeError::PathMissing),
    }
}

} // verus!
