//! Small byte-buffer helpers shared by the frame codecs: big-endian ports,
//! buffer slicing, NUL scanning, and the common shape of a decoder result.

use vstd::prelude::*;

use crate::error::SocksError;

verus! {

/// Outcome of decoding one frame out of a byte buffer.
///
/// `Done(value, used)` means the first `used` bytes of the buffer formed a
/// complete frame; `Need(more)` means at least `more` further bytes must
/// arrive before the frame can be complete; `Fail` means the bytes already
/// present rule the frame out.
#[derive(Debug, PartialEq, Eq)]
pub enum DecodeResult<T> {
    Done(T, usize),
    Need(usize),
    Fail(SocksError),
}

/// The two big-endian bytes of a 16-bit port.
pub open spec fn spec_be16(p: u16) -> Seq<u8> {
    seq![(p / 256) as u8, (p % 256) as u8]
}

/// The port denoted by two big-endian bytes.
pub open spec fn spec_u16_of_be(hi: u8, lo: u8) -> u16 {
    (hi * 256 + lo) as u16
}

/// Law: a port survives the trip through its big-endian wire bytes.
pub proof fn lemma_be16_roundtrip(p: u16)
    ensures
        spec_u16_of_be(spec_be16(p)[0], spec_be16(p)[1]) == p,
{
    assert((p / 256) * 256 + (p % 256) == p) by (nonlinear_arith);
}

/// Law: two bytes survive the trip through the port they denote.
pub proof fn lemma_be16_bytes_roundtrip(hi: u8, lo: u8)
    ensures
        spec_be16(spec_u16_of_be(hi, lo)) =~= seq![hi, lo],
{
    let p = spec_u16_of_be(hi, lo);
    assert(p == hi * 256 + lo);
    assert(p / 256 == hi && p % 256 == lo) by (nonlinear_arith)
        requires
            p == hi * 256 + lo,
            hi <= 255,
            lo <= 255,
    ;
}

/// Append a port in big-endian order.
pub fn push_be16(out: &mut Vec<u8>, p: u16)
    ensures
        final(out)@ == old(out)@ + spec_be16(p),
{
    out.push((p / 256) as u8);
    out.push((p % 256) as u8);
    proof {
        assert(final(out)@ =~= old(out)@ + spec_be16(p));
    }
}

/// Read a big-endian port from two bytes.
pub fn u16_of_be(hi: u8, lo: u8) -> (r: u16)
    ensures
        r == spec_u16_of_be(hi, lo),
{
    hi as u16 * 256 + lo as u16
}

/// Append all bytes of a slice.
pub fn push_bytes(out: &mut Vec<u8>, src: &[u8])
    ensures
        final(out)@ == old(out)@ + src@,
{
    let mut i: usize = 0;
    while i < src.len()
        invariant
            i <= src@.len(),
            out@ == old(out)@ + src@.subrange(0, i as int),
        decreases src@.len() - i,
    {
        let b = src[i];
        out.push(b);
        i = i + 1;
        proof {
            assert(out@ =~= old(out)@ + src@.subrange(0, i as int));
        }
    }
    proof {
        assert(src@.subrange(0, src@.len() as int) =~= src@);
    }
}

/// Append a whole buffer.
pub fn append_vec(dst: &mut Vec<u8>, src: &Vec<u8>)
    ensures
        final(dst)@ == old(dst)@ + src@,
{
    push_bytes(dst, src.as_slice());
}

/// Copy `buf[start..end]` into a fresh buffer.
pub fn take_range(buf: &Vec<u8>, start: usize, end: usize) -> (r: Vec<u8>)
    requires
        start <= end <= buf@.len(),
    ensures
        r@ == buf@.subrange(start as int, end as int),
{
    let mut out: Vec<u8> = Vec::new();
    let mut i: usize = start;
    while i < end
        invariant
            start <= i <= end <= buf@.len(),
            out@ == buf@.subrange(start as int, i as int),
        decreases end - i,
    {
        let b = buf[i];
        out.push(b);
        i = i + 1;
        proof {
            assert(out@ =~= buf@.subrange(start as int, i as int));
        }
    }
    out
}

/// Drop the first `n` bytes of a buffer, keeping the rest.
pub fn tail(buf: &Vec<u8>, n: usize) -> (r: Vec<u8>)
    requires
        n <= buf@.len(),
    ensures
        r@ == buf@.skip(n as int),
{
    let r = take_range(buf, n, buf.len());
    proof {
        assert(r@ =~= buf@.skip(n as int));
    }
    r
}

/// Index of the first NUL byte at or after `from`, if any.
pub open spec fn spec_find_nul(b: Seq<u8>, from: int) -> Option<int>
    recommends
        0 <= from <= b.len(),
    decreases b.len() - from,
    when 0 <= from <= b.len()
{
    if from >= b.len() {
        Option::None
    } else if b[from] == 0 {
        Option::Some(from)
    } else {
        spec_find_nul(b, from + 1)
    }
}

/// What `spec_find_nul` finds is the first NUL: it is a NUL with none
/// before it, and absence means there is none at all.
pub proof fn lemma_spec_find_nul(b: Seq<u8>, from: int)
    requires
        0 <= from <= b.len(),
    ensures
        match spec_find_nul(b, from) {
            Option::Some(i) => from <= i < b.len() && b[i] == 0 && (forall|j: int|
                from <= j < i ==> b[j] != 0),
            Option::None => forall|j: int| from <= j < b.len() ==> b[j] != 0,
        },
    decreases b.len() - from,
{
    if from < b.len() && b[from] != 0 {
        lemma_spec_find_nul(b, from + 1);
    }
}

/// A NUL with none before it is the one `spec_find_nul` finds.
pub proof fn lemma_find_nul_at(b: Seq<u8>, from: int, i: int)
    requires
        0 <= from <= i < b.len(),
        b[i] == 0,
        forall|j: int| from <= j < i ==> b[j] != 0,
    ensures
        spec_find_nul(b, from) == Option::Some(i),
    decreases i - from,
{
    if from < i {
        lemma_find_nul_at(b, from + 1, i);
    }
}

/// Find the first NUL byte at or after `from`.
pub fn find_nul(buf: &Vec<u8>, from: usize) -> (r: Option<usize>)
    requires
        from <= buf@.len(),
    ensures
        match r {
            Some(i) => spec_find_nul(buf@, from as int) == Option::Some(i as int) && from <= i
                < buf@.len(),
            None => spec_find_nul(buf@, from as int) is None,
        },
{
    let mut i: usize = from;
    while i < buf.len()
        invariant
            from <= i <= buf@.len(),
            forall|j: int| from <= j < i ==> buf@[j] != 0,
        decreases buf@.len() - i,
    {
        if buf[i] == 0 {
            proof {
                lemma_find_nul_at(buf@, from as int, i as int);
            }
            return Some(i);
        }
        i = i + 1;
    }
    proof {
        lemma_spec_find_nul(buf@, from as int);
    }
    None
}

} // verus!
