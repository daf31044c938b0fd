use vstd::prelude::*;

use crate::buffer::{grown, zeros};
use crate::error::Error;

verus! {

/// What a whole-file read does once the starting position and the end
/// position of the stream are known.
#[derive(Debug, Clone, Copy, PartialEq, Eq)]
pub enum ReadToEndPlan {
    /// Nothing more to do: this is the result of the read.
    Done(Result<usize, Error>),
    /// Seek back to `from` and fill the buffer; `to_read` bytes lie between
    /// `from` and the end of the file.
    Read { from: u64, to_read: usize },
}

/// The plan for the positions `start` (where the read begins) and `end`
/// (the end of the file), in the order the queries were made.
pub open spec fn plan_spec(start: Result<u64, Error>, end: Result<u64, Error>) -> ReadToEndPlan {
    match start {
        Err(e) => ReadToEndPlan::Done(Err(e)),
        Ok(s) => match end {
            Err(e) => ReadToEndPlan::Done(Err(e)),
            Ok(t) => if t <= s {
                ReadToEndPlan::Done(Ok(0))
            } else {
                ReadToEndPlan::Read { from: s, to_read: (t - s) as usize }
            },
        },
    }
}

/// The result of a whole-file read of `to_read` bytes, from the outcome of
/// the fixed-size read that fetched them.
pub open spec fn finish_spec(to_read: usize, filled: Result<(), Error>) -> Result<usize, Error> {
    match filled {
        Ok(()) => Ok(to_read),
        Err(Error::EndOfFile(n)) => Ok(n),
        Err(e) => Err(e),
    }
}

/// Appends `by` zero bytes to `buff`.
fn expand_buffer(buff: &mut Vec<u8>, by: usize)
    requires
        old(buff).len() + by <= usize::MAX,
    ensures
        final(buff)@ == old(buff)@ + zeros(by as nat),
{
    let ghost start = buff@;
    let mut i: usize = 0;
    while i < by
        invariant
            i <= by,
            buff@ == start + zeros(i as nat),
        decreases by - i,
    {
        buff.push(0u8);
        i = i + 1;
        assert(buff@ =~= start + zeros(i as nat));
    }
}

/// Decides a whole-file read from the stream's position when the read began
/// (`start`) and the position of its end (`end`).
///
/// A failed query ends the read with its error, the first one first. When
/// the read begins at or past the end there is nothing to read and the
/// buffer is left alone. Otherwise the buffer is grown with zeros until it
/// can hold the `end - start` bytes, and the caller is told to seek back to
/// `start` and fill it.
pub fn plan_read_to_end(
    start: Result<u64, Error>,
    end: Result<u64, Error>,
    buf: &mut Vec<u8>,
) -> (r: ReadToEndPlan)
    ensures
        r == plan_spec(start, end),
        final(buf)@ == match r {
            ReadToEndPlan::Read { to_read, .. } => grown(old(buf)@, to_read as nat),
            ReadToEndPlan::Done(_) => old(buf)@,
        },
{
    let s = match start {
        Err(e) => return ReadToEndPlan::Done(Err(e)),
        Ok(s) => s,
    };
    let t = match end {
        Err(e) => return ReadToEndPlan::Done(Err(e)),
        Ok(t) => t,
    };
    if t <= s {
        return ReadToEndPlan::Done(Ok(0));
    }
    let to_read = (t - s) as usize;
    if buf.len() < to_read {
        let by = to_read - buf.len();
        expand_buffer(buf, by);
    }
    ReadToEndPlan::Read { from: s, to_read }
}

/// The result of a whole-file read of `to_read` bytes from the outcome of
/// filling the buffer: a full buffer gives `to_read`, a read cut short by
/// the end of the file gives the bytes it got, any other error is passed on.
pub fn finish_read_to_end(to_read: usize, filled: Result<(), Error>) -> (r: Result<usize, Error>)
    ensures
        r == finish_spec(to_read, filled),
{
    match filled {
        Ok(()) => Ok(to_read),
        Err(Error::EndOfFile(n)) => Ok(n),
        Err(e) => Err(e),
    }
}

/// Reading to the end from position `p` of a file of length `l` reads
/// `l - p` bytes: the read starts at `p`, the buffer is grown to hold at
/// least `l - p` bytes while its front is kept, and the count reported is
/// `l - p` both when the buffer is filled exactly and when it is longer and
/// the fill stops at the end of the file after `l - p` bytes.
pub proof fn lemma_read_to_end_count(p: u64, l: u64, buf: Seq<u8>)
    requires
        p < l,
        l - p <= usize::MAX,
    ensures
        ({
            let n = (l - p) as usize;
            &&& n == l - p
            &&& plan_spec(Ok(p), Ok(l)) == (ReadToEndPlan::Read { from: p, to_read: n })
            &&& grown(buf, n as nat).len() >= l - p
            &&& grown(buf, n as nat).subrange(0, buf.len() as int) == buf
            &&& finish_spec(n, Ok(())) == Ok::<usize, Error>(n)
            &&& finish_spec(n, Err(Error::EndOfFile(n))) == Ok::<usize, Error>(n)
        }),
{
    let n = (l - p) as usize;
    assert(grown(buf, n as nat).subrange(0, buf.len() as int) =~= buf);
}

/// Reading to the end from the end of the file reports 0 bytes and asks for
/// no read, so the caller's buffer is left as it was.
pub proof fn lemma_read_to_end_at_end(p: u64)
    ensures
        plan_spec(Ok(p), Ok(p)) == ReadToEndPlan::Done(Ok(0)),
{
}

} // verus!
