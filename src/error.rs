use vstd::prelude::*;

verus! {

/// The kinds of failure that configuration resolution and the update request report.
///
/// `DisplayHelp` and `DisplayVersion` are no real failures: they carry the text that was
/// asked for, to be printed before a normal exit.
#[derive(Debug, Clone, Copy, PartialEq, Eq, Structural)]
pub enum ErrorKind {
    ConfigFolderAccess,
    DisplayVersion,
    DisplayHelp,
    InvalidArgument,
    InvalidConfigFile,
    InvalidRequest,
}

/// A classified failure with the message to show to the user.
#[derive(Debug, PartialEq)]
pub struct Error {
    pub kind: ErrorKind,
    pub message: String,
}

impl Error {
    /// Whether this error only carries text to print on a successful exit.
    pub fn is_display_request(&self) -> (r: bool)
        ensures
            r == (self.kind == ErrorKind::DisplayHelp || self.kind == ErrorKind::DisplayVersion),
    {
        self.kind == ErrorKind::DisplayHelp || self.kind == ErrorKind::DisplayVersion
    }
}

} // verus!
