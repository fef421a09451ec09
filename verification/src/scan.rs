//! The fast path through the body of a string: a run of bytes that cannot
//! end or escape the string is recognised as a whole and passed over.

use vstd::prelude::*;

verus! {

/// The number of bytes that are looked at together.
pub const LANES: usize = 8;

/// A byte that leaves the automaton where it is inside a string: neither the
/// quote that ends the string, nor the backslash that begins an escape, nor a
/// control character, which a string may not hold.
pub open spec fn is_plain(byte: u8) -> bool {
    byte >= 0x20 && byte != 0x22 && byte != 0x5c
}

/// Every byte of `bytes` is plain.
pub open spec fn all_plain(bytes: Seq<u8>) -> bool {
    forall|i: int| 0 <= i < bytes.len() ==> is_plain(#[trigger] bytes[i])
}

/// Tells whether every byte of `chunk` is plain.
pub fn is_plain_chunk(chunk: &[u8]) -> (plain: bool)
    ensures
        plain == all_plain(chunk@),
{
    let mut i: usize = 0;
    while i < chunk.len()
        invariant
            i <= chunk@.len(),
            all_plain(chunk@.take(i as int)),
        decreases chunk@.len() - i,
    {
        let byte: u8 = chunk[i];
        if byte < 0x20 || byte == 0x22 || byte == 0x5c {
            assert(!is_plain(chunk@[i as int]));
            return false;
        }
        assert forall|j: int| 0 <= j < i + 1 implies is_plain(#[trigger] chunk@.take(i + 1)[j]) by {
            if j < i {
                assert(chunk@.take(i + 1)[j] == chunk@.take(i as int)[j]);
            }
        }
        i += 1;
    }
    assert(chunk@.take(i as int) =~= chunk@);
    true
}

} // verus!
