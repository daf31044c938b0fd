use vstd::prelude::*;

verus! {

/// `n` zero bytes.
pub open spec fn zeros(n: nat) -> Seq<u8> {
    Seq::new(n, |_i: int| 0u8)
}

/// `buf` lengthened with zero bytes to at least `n` bytes; a buffer that is
/// already long enough is kept as it is.
pub open spec fn grown(buf: Seq<u8>, n: nat) -> Seq<u8> {
    if buf.len() < n {
        buf + zeros((n - buf.len()) as nat)
    } else {
        buf
    }
}

/// A buffer of `len` zero bytes to read into.
pub fn buffer(len: usize) -> (r: Vec<u8>)
    ensures
        r@ == zeros(len as nat),
{
    let r = vec![0u8; len];
    assert(r@ =~= zeros(len as nat));
    r
}

} // verus!
