use vstd::prelude::*;
use vstd::bytes::{
    lemma_auto_spec_u64_to_from_le_bytes, spec_u64_from_le_bytes, spec_u64_to_le_bytes,
    u64_from_le_bytes, u64_to_le_bytes,
};

verus! {

/// The eight bytes of an unsigned 64-bit number, least significant first.
pub open spec fn u64_bytes(x: u64) -> Seq<u8> {
    spec_u64_to_le_bytes(x)
}

/// The eight bytes of a signed 64-bit number in two's complement, least
/// significant first.
pub open spec fn i64_bytes(x: i64) -> Seq<u8> {
    spec_u64_to_le_bytes(x as u64)
}

/// The byte of a flag: one where it is set, zero where it is not.
pub open spec fn bool_byte(flag: bool) -> u8 {
    if flag {
        1
    } else {
        0
    }
}

/// Each number has eight bytes, and no two numbers have the same.
pub proof fn lemma_number_bytes(x: u64, y: u64, a: i64, b: i64)
    ensures
        u64_bytes(x).len() == 8,
        u64_bytes(y).len() == 8,
        i64_bytes(a).len() == 8,
        i64_bytes(b).len() == 8,
        u64_bytes(x) == u64_bytes(y) ==> x == y,
        i64_bytes(a) == i64_bytes(b) ==> a == b,
{
    lemma_auto_spec_u64_to_from_le_bytes();
    assert((a as u64) as i64 == a) by (bit_vector);
    assert((b as u64) as i64 == b) by (bit_vector);
    if i64_bytes(a) == i64_bytes(b) {
        assert(spec_u64_from_le_bytes(spec_u64_to_le_bytes(a as u64)) == a as u64);
        assert(spec_u64_from_le_bytes(spec_u64_to_le_bytes(b as u64)) == b as u64);
    }
}

/// Appends the bytes of `x`.
pub(crate) fn put_u64(out: &mut Vec<u8>, x: u64)
    ensures
        final(out)@ == old(out)@ + u64_bytes(x),
{
    let mut bytes = u64_to_le_bytes(x);
    out.append(&mut bytes);
}

/// Appends the bytes of `x`.
pub(crate) fn put_i64(out: &mut Vec<u8>, x: i64)
    ensures
        final(out)@ == old(out)@ + i64_bytes(x),
{
    let unsigned: u64 = #[verifier::truncate]
    (x as u64);
    put_u64(out, unsigned);
}

/// Appends 32 bytes.
pub(crate) fn put_bytes32(out: &mut Vec<u8>, bytes: &[u8; 32])
    ensures
        final(out)@ == old(out)@ + bytes@,
{
    let mut i: usize = 0;
    while i < 32
        invariant
            i <= 32,
            out@ == old(out)@ + bytes@.subrange(0, i as int),
        decreases 32 - i,
    {
        out.push(bytes[i]);
        i += 1;
        assert(out@ =~= old(out)@ + bytes@.subrange(0, i as int));
    }
    assert(bytes@.subrange(0, 32) =~= bytes@);
}

/// Reads the 32 bytes that start at `at`.
pub(crate) fn take_bytes32(bytes: &[u8], at: usize) -> (taken: [u8; 32])
    requires
        at + 32 <= bytes@.len(),
    ensures
        taken@ == bytes@.subrange(at as int, at + 32),
{
    let length = bytes.len();
    let mut taken = [0u8; 32];
    let mut i: usize = 0;
    while i < 32
        invariant
            i <= 32,
            at + 32 <= bytes@.len() == length,
            forall|j: int| 0 <= j < i ==> taken@[j] == bytes@[at + j],
        decreases 32 - i,
    {
        taken[i] = bytes[at + i];
        i += 1;
    }
    assert(taken@ =~= bytes@.subrange(at as int, at + 32));
    taken
}

/// Reads the unsigned number whose eight bytes start at `at`.
pub(crate) fn take_u64(bytes: &[u8], at: usize) -> (x: u64)
    requires
        at + 8 <= bytes@.len(),
    ensures
        u64_bytes(x) == bytes@.subrange(at as int, at + 8),
{
    proof {
        lemma_auto_spec_u64_to_from_le_bytes();
    }
    let length = bytes.len();
    assert(at + 8 <= length);
    let part = vstd::slice::slice_subrange(bytes, at, at + 8);
    u64_from_le_bytes(part)
}

/// Reads the signed number whose eight bytes start at `at`.
pub(crate) fn take_i64(bytes: &[u8], at: usize) -> (x: i64)
    requires
        at + 8 <= bytes@.len(),
    ensures
        i64_bytes(x) == bytes@.subrange(at as int, at + 8),
{
    let unsigned = take_u64(bytes, at);
    let x: i64 = #[verifier::truncate]
    (unsigned as i64);
    assert((unsigned as i64) as u64 == unsigned) by (bit_vector);
    x
}

} // verus!
