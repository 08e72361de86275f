//! Small helpers shared by the other modules.

use vstd::prelude::*;

verus! {

/// An array with every byte the same.
pub open spec fn filled<const N: usize>(value: u8) -> [u8; N] {
    vstd::array::spec_array_fill_for_copy_type::<u8, N>(value)
}

/// Copies `size` bytes of `from`, beginning at `*start`, over the front of `to`
/// and moves `*start` past them.
pub fn readbuf_vec(to: &mut Vec<u8>, from: &[u8], start: &mut usize, size: usize)
    requires
        size <= old(to)@.len(),
        *old(start) + size <= from@.len(),
    ensures
        *final(start) == *old(start) + size,
        final(to)@ == from@.subrange(*old(start) as int, *old(start) + size) + old(to)@.subrange(
            size as int,
            old(to)@.len() as int,
        ),
{
    let base: usize = *start;
    let limit: usize = from.len();
    let mut i: usize = 0;
    while i < size
        invariant
            i <= size,
            size <= to@.len(),
            to@.len() == old(to)@.len(),
            base == *old(start),
            limit == from@.len(),
            base + size <= limit,
            forall|k: int| 0 <= k < i ==> to@[k] == from@[base + k],
            forall|k: int| i <= k < to@.len() ==> to@[k] == old(to)@[k],
        decreases size - i,
    {
        to[i] = from[i + base];
        i += 1;
    }
    *start = base + size;
    assert(to@ =~= from@.subrange(base as int, base + size) + old(to)@.subrange(
        size as int,
        old(to)@.len() as int,
    ));
}

/// A vector of `len` zero bytes.
pub fn zeroed(len: usize) -> (v: Vec<u8>)
    ensures
        v@.len() == len,
        forall|k: int| 0 <= k < len ==> v@[k] == 0,
{
    let mut v: Vec<u8> = Vec::new();
    let mut i: usize = 0;
    while i < len
        invariant
            i <= len,
            v@.len() == i,
            forall|k: int| 0 <= k < i ==> v@[k] == 0,
        decreases len - i,
    {
        v.push(0);
        i += 1;
    }
    v
}

} // verus!
