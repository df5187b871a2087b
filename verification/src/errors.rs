use vstd::prelude::*;
use vstd::string::StringExecFns;

verus! {

/// Everything that can go wrong during one invocation of the tool.
///
/// Every error is terminal: there is no retry and no recovery path. The
/// only failure that is ever "recovered" from is a not-found editor
/// command, which the launch chain in `launcher` handles by falling
/// through to the next strategy.
#[derive(Debug, PartialEq, Eq)]
pub enum Error {
    /// No title was given on the command line.
    MissingArgument,
    /// The user's home directory could not be determined.
    EnvironmentError,
    /// The target note file already exists; the payload is its path.
    DuplicateError(String),
    /// Creating the notes directory or creating/writing the note file failed
    /// for any reason other than the directory already existing.
    IOError,
    /// The platform has no known terminal-editor invocation.
    UnsupportedPlatform,
    /// Every editor-launch strategy failed, or one failed fatally.
    LaunchExhausted,
}

impl Error {
    /// The message shown to the user for this error.
    pub fn message(&self) -> (r: String)
        ensures
            self is MissingArgument ==> r@ == "please provide a filename"@,
            self is EnvironmentError ==> r@ == "couldn't find your home dir"@,
            self matches Error::DuplicateError(p) ==> r@ == "file already exists: "@ + p@,
            self is IOError ==> r@ == "couldn't create the note"@,
            self is UnsupportedPlatform ==> r@ == "unsupported platform"@,
            self is LaunchExhausted ==> r@ == "couldn't open file"@,
    {
        match self {
            Error::MissingArgument => String::from_str("please provide a filename"),
            Error::EnvironmentError => String::from_str("couldn't find your home dir"),
            Error::DuplicateError(p) => String::from_str("file already exists: ").concat(
                p.as_str(),
            ),
            Error::IOError => String::from_str("couldn't create the note"),
            Error::UnsupportedPlatform => String::from_str("unsupported platform"),
            Error::LaunchExhausted => String::from_str("couldn't open file"),
        }
    }
}

/// The process exit status that reflects a run's result: zero exactly on
/// success, one on any fatal error.
pub fn exit_code(r: &Result<(), Error>) -> (c: i32)
    ensures
        c == 0 <==> r is Ok,
        c == 0 || c == 1,
{
    match r {
        Ok(_) => 0,
        Err(_) => 1,
    }
}

} // verus!
