//! Small operations on byte strings that the codec is built from.

use vstd::prelude::*;

verus! {

/// Whether the most significant bit of `first` is set, which is the mark of
/// a compressed point encoding: the bytes from `0x80` upwards have it.
pub open spec fn has_compression_flag(first: u8) -> bool {
    first >= 0x80
}

/// Reads the compression flag off the first byte of an encoding.
pub fn compression_flag(first: u8) -> (set: bool)
    ensures
        set == has_compression_flag(first),
{
    assert((first & 0x80 == 0x80) <==> first >= 0x80) by (bit_vector);
    first & 0x80 == 0x80
}

/// Compares two byte strings.
pub fn bytes_equal(a: &[u8], b: &[u8]) -> (same: bool)
    ensures
        same == (a@ == b@),
{
    if a.len() != b.len() {
        return false;
    }
    let mut i: usize = 0;
    while i < a.len()
        invariant
            i <= a@.len(),
            a@.len() == b@.len(),
            forall|j: int| 0 <= j < i ==> a@[j] == b@[j],
        decreases a@.len() - i,
    {
        if a[i] != b[i] {
            return false;
        }
        i += 1;
    }
    assert(a@ =~= b@);
    true
}

/// Appends `bytes` to `writer`.
pub fn write_all(writer: &mut Vec<u8>, bytes: &[u8])
    ensures
        final(writer)@ == old(writer)@ + bytes@,
{
    let mut i: usize = 0;
    while i < bytes.len()
        invariant
            i <= bytes@.len(),
            writer@ == old(writer)@ + bytes@.take(i as int),
        decreases bytes@.len() - i,
    {
        writer.push(bytes[i]);
        i += 1;
    }
}

/// Takes the next `n` bytes off `reader`, or none of them if fewer are left.
pub fn read_exact<'a>(reader: &mut &'a [u8], n: usize) -> (taken: Option<&'a [u8]>)
    ensures
        old(reader)@.len() >= n ==> taken is Some && taken.unwrap()@ == old(reader)@.take(n as int)
            && final(reader)@ == old(reader)@.skip(n as int),
        old(reader)@.len() < n ==> taken is None && final(reader)@ == old(reader)@,
{
    let input: &'a [u8] = *reader;
    if input.len() < n {
        return None;
    }
    let (head, rest) = input.split_at(n);
    *reader = rest;
    Some(head)
}

} // verus!
