//! Byte-level helpers of the codec.

use std::cmp::Ordering;
use vstd::prelude::*;
use vstd::slice::slice_subrange;

verus! {

/// Why a buffer does not start with an event.
#[derive(Debug, Clone, Copy, PartialEq, Eq, Structural)]
pub enum DecodeError {
    /// The buffer ends before the message does.
    Incomplete,
    /// A data byte has its top bit set.
    DataByteTooLarge,
    /// The status byte is none that the codec reads.
    UnsupportedStatus,
}

/// The first byte of a buffer and what follows it.
pub open spec fn decode_u8(i: Seq<u8>) -> Result<(Seq<u8>, u8), DecodeError> {
    if i.len() == 0 {
        Err(DecodeError::Incomplete)
    } else {
        Ok((i.skip(1), i[0]))
    }
}

/// The first byte of a buffer, which must be below 128, and what follows it.
pub open spec fn decode_u7(i: Seq<u8>) -> Result<(Seq<u8>, u8), DecodeError> {
    if i.len() == 0 {
        Err(DecodeError::Incomplete)
    } else if i[0] > 127 {
        Err(DecodeError::DataByteTooLarge)
    } else {
        Ok((i.skip(1), i[0]))
    }
}

/// A read result as contracts see it.
pub open spec fn read_view(r: Result<(&[u8], u8), DecodeError>) -> Result<
    (Seq<u8>, u8),
    DecodeError,
> {
    match r {
        Ok((rest, value)) => Ok((rest@, value)),
        Err(e) => Err(e),
    }
}

/// Takes one byte off the front of a buffer.
pub fn be_u8(i: &[u8]) -> (r: Result<(&[u8], u8), DecodeError>)
    ensures
        read_view(r) == decode_u8(i@),
{
    if i.len() == 0 {
        Err(DecodeError::Incomplete)
    } else {
        let val: u8 = i[0];
        Ok((slice_subrange(i, 1, i.len()), val))
    }
}

/// Takes one byte off the front of a buffer and checks that its most
/// significant bit is 0.
pub fn be_u7(i: &[u8]) -> (r: Result<(&[u8], u8), DecodeError>)
    ensures
        read_view(r) == decode_u7(i@),
{
    if i.len() == 0 {
        Err(DecodeError::Incomplete)
    } else {
        let val: u8 = i[0];
        if val > 127 {
            Err(DecodeError::DataByteTooLarge)
        } else {
            Ok((slice_subrange(i, 1, i.len()), val))
        }
    }
}

/// An index as a mathematical integer.
pub open spec fn index_of(at: usize) -> int {
    at as int
}

/// The order of two byte strings as in a dictionary: the first position at
/// which they differ decides, and where neither differs before one of them
/// ends, the shorter one comes first.
pub open spec fn lexicographic(a: Seq<u8>, b: Seq<u8>) -> Ordering
    decreases a.len(),
{
    if a.len() == 0 {
        if b.len() == 0 {
            Ordering::Equal
        } else {
            Ordering::Less
        }
    } else if b.len() == 0 {
        Ordering::Greater
    } else if a[0] < b[0] {
        Ordering::Less
    } else if a[0] > b[0] {
        Ordering::Greater
    } else {
        lexicographic(a.skip(1), b.skip(1))
    }
}

/// Two byte strings that agree on their first `at` bytes compare as what
/// follows those bytes.
proof fn lemma_lexicographic_skips(a: Seq<u8>, b: Seq<u8>, at: int)
    requires
        0 <= at < a.len(),
        at < b.len(),
        a[at] == b[at],
    ensures
        lexicographic(a.skip(at), b.skip(at)) == lexicographic(a.skip(at + 1), b.skip(at + 1)),
{
    assert(a.skip(at).skip(1) =~= a.skip(at + 1));
    assert(b.skip(at).skip(1) =~= b.skip(at + 1));
}

/// Compares two slices byte by byte.
pub fn compare_u8_slices(a: &[u8], b: &[u8]) -> (order: Ordering)
    ensures
        order == lexicographic(a@, b@),
{
    let mut at: usize = 0;
    assert(a@.skip(0) =~= a@ && b@.skip(0) =~= b@);
    while at < a.len() && at < b.len()
        invariant
            at <= a.len(),
            at <= b.len(),
            lexicographic(a@, b@) == lexicographic(a@.skip(index_of(at)), b@.skip(index_of(at))),
        decreases a.len() - at,
    {
        if a[at] < b[at] {
            return Ordering::Less;
        }
        if a[at] > b[at] {
            return Ordering::Greater;
        }
        proof {
            lemma_lexicographic_skips(a@, b@, index_of(at));
        }
        at += 1;
    }
    if at < b.len() {
        Ordering::Less
    } else if at < a.len() {
        Ordering::Greater
    } else {
        Ordering::Equal
    }
}

} // verus!
