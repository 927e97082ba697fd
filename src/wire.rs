//! Fixed-layout little-endian field encoding shared by records and instructions.
use vstd::bytes::*;
use vstd::prelude::*;

verus! {

broadcast use vstd::array::group_array_axioms;

/// The byte that stores a flag.
pub open spec fn bool_byte(b: bool) -> u8 {
    if b {
        1u8
    } else {
        0u8
    }
}

/// Appends the bytes of `s`.
pub fn push_slice(out: &mut Vec<u8>, s: &[u8])
    ensures
        final(out)@ == old(out)@ + s@,
{
    let ghost start = out@;
    let mut i: usize = 0;
    while i < s.len()
        invariant
            i <= s@.len(),
            out@ == start + s@.subrange(0, i as int),
        decreases s@.len() - i,
    {
        out.push(s[i]);
        i = i + 1;
        assert(out@ =~= start + s@.subrange(0, i as int));
    }
    assert(s@.subrange(0, s@.len() as int) =~= s@);
}

/// Appends the little-endian bytes of `x`.
pub fn push_u64(out: &mut Vec<u8>, x: u64)
    ensures
        final(out)@ == old(out)@ + spec_u64_to_le_bytes(x),
{
    let b = u64_to_le_bytes(x);
    push_slice(out, b.as_slice());
}

/// Appends the little-endian bytes of `x`.
pub fn push_u128(out: &mut Vec<u8>, x: u128)
    ensures
        final(out)@ == old(out)@ + spec_u128_to_le_bytes(x),
{
    let b = u128_to_le_bytes(x);
    push_slice(out, b.as_slice());
}

/// Appends one flag byte.
pub fn push_bool(out: &mut Vec<u8>, b: bool)
    ensures
        final(out)@ == old(out)@.push(bool_byte(b)),
{
    if b {
        out.push(1u8);
    } else {
        out.push(0u8);
    }
}

/// Copies `N` bytes of `data` starting at `at`.
pub fn read_array<const N: usize>(data: &[u8], at: usize) -> (r: [u8; N])
    requires
        at + N <= data.len(),
    ensures
        r@ == data@.subrange(at as int, at + N),
{
    let mut r: [u8; N] = vstd::array::array_fill_for_copy_types::<u8, N>(0u8);
    let mut i: usize = 0;
    while i < N
        invariant
            at + N <= data@.len(),
            data@.len() == data.len(),
            i <= N,
            r@.len() == N,
            forall|j: int| 0 <= j < i ==> r@[j] == data@[at + j],
        decreases N - i,
    {
        r[i] = data[at + i];
        i = i + 1;
    }
    assert(r@ =~= data@.subrange(at as int, at + N));
    r
}

/// Reads a little-endian `u64` at `at`.
pub fn read_u64(data: &[u8], at: usize) -> (r: u64)
    requires
        at + 8 <= data.len(),
    ensures
        r == spec_u64_from_le_bytes(data@.subrange(at as int, at + 8)),
        spec_u64_to_le_bytes(r) == data@.subrange(at as int, at + 8),
{
    proof {
        lemma_auto_spec_u64_to_from_le_bytes();
    }
    u64_from_le_bytes(&data[at..at + 8])
}

/// Reads a little-endian `u128` at `at`.
pub fn read_u128(data: &[u8], at: usize) -> (r: u128)
    requires
        at + 16 <= data.len(),
    ensures
        r == spec_u128_from_le_bytes(data@.subrange(at as int, at + 16)),
        spec_u128_to_le_bytes(r) == data@.subrange(at as int, at + 16),
{
    proof {
        lemma_auto_spec_u128_to_from_le_bytes();
    }
    u128_from_le_bytes(&data[at..at + 16])
}

/// Reads a flag byte at `at`; `None` unless it is 0 or 1.
pub fn read_bool(data: &[u8], at: usize) -> (r: Option<bool>)
    requires
        at < data@.len(),
    ensures
        r is Some <==> data@[at as int] <= 1,
        r matches Some(b) ==> bool_byte(b) == data@[at as int],
{
    if data[at] == 0 {
        Some(false)
    } else if data[at] == 1 {
        Some(true)
    } else {
        None
    }
}

} // verus!
