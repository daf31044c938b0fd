use vstd::prelude::*;

use crate::error::Error;

verus! {

/// Mode for opening: reading and writing, overwriting old data; the file
/// must already exist.
pub const RANDOM_ACCESS_MODE: &'static str = "rb+";

/// Mode for opening: reading and writing, overwriting old data; the file
/// must already exist.
pub const UPDATE: &'static str = "rb+";

/// Mode for opening: reading only.
pub const READ_ONLY: &'static str = "r";

/// Mode for opening: writing only; the file is created or truncated.
pub const WRITE_ONLY: &'static str = "w";

/// Mode for opening: data is only appended to the end of the file.
pub const APPEND_ONLY: &'static str = "a";

/// Mode for opening: appending and reading; the file is created if missing.
pub const APPEND_READ: &'static str = "a+";

/// Mode for opening: reading and writing; the file is created, or truncated
/// if it exists.
pub const TRUNCATE_RANDOM_ACCESS_MODE: &'static str = "wb+";

/// Whether `bytes` holds a nul byte, which a C string cannot carry.
pub fn has_nul(bytes: &[u8]) -> (r: bool)
    ensures
        r == bytes@.contains(0u8),
{
    let mut i: usize = 0;
    while i < bytes.len()
        invariant
            i <= bytes@.len(),
            forall|j: int| 0 <= j < i ==> bytes@[j] != 0u8,
        decreases bytes@.len() - i,
    {
        if bytes[i] == 0u8 {
            assert(bytes@[i as int] == 0u8);
            return true;
        }
        i = i + 1;
    }
    false
}

/// Checks a path before it is handed to C: one holding a nul byte is a
/// `BadPath`.
pub fn check_path(path: &[u8]) -> (r: Result<(), Error>)
    ensures
        r == (if path@.contains(0u8) {
            Err(Error::BadPath)
        } else {
            Ok(())
        }),
{
    if has_nul(path) {
        Err(Error::BadPath)
    } else {
        Ok(())
    }
}

/// Checks the path and the mode of an open before they are handed to C:
/// either one holding a nul byte is a `BadPath`.
pub fn check_open_args(path: &[u8], mode: &[u8]) -> (r: Result<(), Error>)
    ensures
        r == (if path@.contains(0u8) || mode@.contains(0u8) {
            Err(Error::BadPath)
        } else {
            Ok(())
        }),
{
    if has_nul(path) || has_nul(mode) {
        Err(Error::BadPath)
    } else {
        Ok(())
    }
}

/// The result of a native call that reports success with 0 (`fclose`,
/// `fflush`, `fseek`, `remove`, `chmod`); any other code fails with the
/// `errno` value read after the call.
pub open spec fn status_spec(code: i32, errno: u64) -> Result<(), Error> {
    if code == 0 {
        Ok(())
    } else {
        Err(Error::Errno(errno))
    }
}

/// Translates the return code of a native call that reports success with 0.
pub fn check_status(code: i32, errno: u64) -> (r: Result<(), Error>)
    ensures
        r == status_spec(code, errno),
{
    if code == 0 {
        Ok(())
    } else {
        Err(Error::Errno(errno))
    }
}

/// Translates what `ftell` returned: -1 means the position is unknown and
/// fails with `errno`; any other value is the position.
pub fn position_outcome(pos: i64, errno: u64) -> (r: Result<u64, Error>)
    ensures
        r == (if pos == -1 {
            Err(Error::Errno(errno))
        } else {
            Ok(pos as u64)
        }),
{
    if pos != -1 {
        Ok(pos as u64)
    } else {
        Err(Error::Errno(errno))
    }
}

/// Translates a write of `requested` bytes of which `written` were stored:
/// anything short of all of them fails with the count and the stream's
/// error indicator.
pub fn write_all_outcome(requested: usize, written: usize, indicator: u64) -> (r: Result<(), Error>)
    ensures
        r == (if written == requested {
            Ok(())
        } else {
            Err(Error::WriteError(written, indicator))
        }),
{
    if written != requested {
        Err(Error::WriteError(written, indicator))
    } else {
        Ok(())
    }
}

/// Translates a read of up to `requested` bytes that got `got`: a full read,
/// or one cut short by the end of the file, gives the count; one cut short
/// for another reason fails with `errno`.
pub fn read_outcome(requested: usize, got: usize, at_eof: bool, errno: u64) -> (r: Result<usize, Error>)
    ensures
        r == (if got == requested || at_eof {
            Ok(got)
        } else {
            Err(Error::Errno(errno))
        }),
{
    if got == requested || at_eof {
        Ok(got)
    } else {
        Err(Error::Errno(errno))
    }
}

/// Translates a read that had to fill `requested` bytes and got `got`.
///
/// Only a full buffer is a success. A read cut short by the end of the file
/// reports how many bytes it placed at the front of the buffer; one cut
/// short for another reason fails with `errno`.
pub fn read_exact_outcome(requested: usize, got: usize, at_eof: bool, errno: u64) -> (r: Result<(), Error>)
    ensures
        r == (if got == requested {
            Ok(())
        } else if at_eof {
            Err(Error::EndOfFile(got))
        } else {
            Err(Error::Errno(errno))
        }),
        r is Ok <==> got == requested,
{
    if got == requested {
        Ok(())
    } else if at_eof {
        Err(Error::EndOfFile(got))
    } else {
        Err(Error::Errno(errno))
    }
}

/// Whether a native stream is still open. A stream comes into being open
/// through [`open_outcome`] and, once closed, stays closed: releasing it again
/// asks nothing of the C library.
#[derive(Debug, Clone, Copy, PartialEq, Eq, Structural)]
pub struct StreamState {
    open: bool,
}

/// What releasing a stream in state `s` settles without a native call:
/// nothing while it is open (`fclose` must be called), success once closed.
pub open spec fn begin_close_spec(s: StreamState) -> Option<Result<(), Error>> {
    if s.is_open() {
        None
    } else {
        Some(Ok(()))
    }
}

impl StreamState {
    pub closed spec fn is_open(self) -> bool {
        self.open
    }

    /// Starts to release the stream. `Some` holds the result when no native
    /// call is needed (the stream is closed already); `None` means that
    /// `fclose` must be called and its code handed to [`Self::finish_close`].
    pub fn begin_close(&self) -> (r: Option<Result<(), Error>>)
        ensures
            r == begin_close_spec(*self),
    {
        if self.open {
            None
        } else {
            Some(Ok(()))
        }
    }

    /// Records what `fclose` returned: 0 closes the stream for good; any
    /// other code fails with `errno` and leaves it open.
    pub fn finish_close(&mut self, code: i32, errno: u64) -> (r: Result<(), Error>)
        requires
            old(self).is_open(),
        ensures
            final(self).is_open() == (code != 0),
            r == status_spec(code, errno),
    {
        self.open = code != 0;
        check_status(code, errno)
    }
}

/// Closing twice is harmless: once `fclose` has returned 0 on an open stream,
/// the close succeeds, and a second release of the stream (an explicit close
/// followed by the teardown at the end of its scope) asks for no native call
/// and succeeds as well.
pub proof fn lemma_close_twice(before: StreamState, code: i32, after: StreamState, errno: u64)
    requires
        before.is_open(),
        code == 0,
        after.is_open() == (code != 0),
    ensures
        begin_close_spec(before) is None,
        status_spec(code, errno) == Ok::<(), Error>(()),
        begin_close_spec(after) == Some(Ok::<(), Error>(())),
{
}

/// Translates what `fopen` returned: a null stream fails with `errno`, any
/// other is a newly opened stream.
pub fn open_outcome(is_null: bool, errno: u64) -> (r: Result<StreamState, Error>)
    ensures
        is_null ==> r == Err::<StreamState, Error>(Error::Errno(errno)),
        !is_null ==> (r matches Ok(s) && s.is_open()),
{
    if is_null {
        Err(Error::Errno(errno))
    } else {
        Ok(StreamState { open: true })
    }
}

/// Where a seek is measured from, and by how much.
#[derive(Debug, Clone, Copy, PartialEq, Eq, Structural)]
pub enum SeekFrom {
    /// That many bytes from the start of the file.
    Start(u64),
    /// That many bytes from the end of the file (negative: before it).
    End(i64),
    /// That many bytes from the current position.
    Current(i64),
}

/// The origin argument of `fseek`.
#[derive(Debug, Clone, Copy, PartialEq, Eq, Structural)]
pub enum Whence {
    /// `SEEK_SET`
    FromStart,
    /// `SEEK_END`
    FromEnd,
    /// `SEEK_CUR`
    FromCurrent,
}

/// The arguments of `fseek` for a seek to `pos`: the origin and the signed
/// offset (a start offset is taken as the C `long` of the same bits).
pub fn seek_directive(pos: SeekFrom) -> (r: (Whence, i64))
    ensures
        r == match pos {
            SeekFrom::Start(n) => (Whence::FromStart, n as i64),
            SeekFrom::End(d) => (Whence::FromEnd, d),
            SeekFrom::Current(d) => (Whence::FromCurrent, d),
        },
{
    match pos {
        SeekFrom::Start(n) => (Whence::FromStart, n as i64),
        SeekFrom::End(d) => (Whence::FromEnd, d),
        SeekFrom::Current(d) => (Whence::FromCurrent, d),
    }
}

} // verus!
