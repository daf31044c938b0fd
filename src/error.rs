use vstd::prelude::*;

verus! {

/// The ways an operation on a C file stream can fail.
///
/// `Errno` carries the `errno` value that the C library reported; to act on
/// particular codes, match on it.
#[derive(Debug, Clone, Copy, PartialEq, Eq, Structural)]
pub enum Error {
    /// The `errno` value of a failed native call.
    Errno(u64),
    /// A path or mode string that cannot be handed to C (it holds a nul byte).
    BadPath,
    /// End of file reached before a fixed-size read was complete; holds the
    /// number of bytes that were read.
    EndOfFile(usize),
    /// A write that stored fewer bytes than asked: the bytes written and the
    /// stream's error indicator.
    WriteError(usize, u64),
}

impl Error {
    /// The native error code this error carries, as a spec value.
    pub open spec fn errno_spec(self) -> u64 {
        match self {
            Error::Errno(e) => e,
            Error::WriteError(_, e) => e,
            _ => 0,
        }
    }

    /// The `errno` value equivalent to this error. `BadPath` and `EndOfFile`
    /// are not `errno` errors and give 0.
    pub fn errno(&self) -> (r: u64)
        ensures
            r == self.errno_spec(),
    {
        match *self {
            Error::Errno(e) => e,
            Error::WriteError(_, e) => e,
            _ => 0,
        }
    }

    /// The description of an error that is not an `errno` value, as
    /// nul-terminated text ready for C; `None` for the errors whose
    /// description is the C library's text for their code.
    pub fn fixed_message(&self) -> (r: Option<&'static str>)
        ensures
            r == match *self {
                Error::BadPath => Some("The path supplied is invalid\0"),
                Error::EndOfFile(_) => Some("The end of the file was reached\0"),
                _ => None::<&'static str>,
            },
    {
        match *self {
            Error::BadPath => Some("The path supplied is invalid\0"),
            Error::EndOfFile(_) => Some("The end of the file was reached\0"),
            _ => None,
        }
    }
}

} // verus!
