//! The fixed values of the scheme.

use vstd::prelude::*;

verus! {

/// The depth of the time tree: the largest time stamp is `2^CONST_D - 1`.
pub const CONST_D: usize = 32;

/// The ciphersuite identifiers that are accepted.
pub const VALID_CIPHERSUITE: [u8; 2] = [0, 1];

/// The salt of the extraction step, which separates this use of the key
/// derivation function from any other.
pub const DOM_SEP_PARAM_GEN: &'static str = "Pixel public parameter generation";

/// The least number of bytes that a seed must have.
pub const MIN_SEED_LEN: usize = 32;

/// The seed of the default parameter set: the initial hash value of SHA-512,
/// eight 64-bit words written big-endian.
pub const SHA512_IV: [u8; 64] = [
    0x6a, 0x09, 0xe6, 0x67, 0xf3, 0xbc, 0xc9, 0x08, 0xbb, 0x67, 0xae, 0x85, 0x84, 0xca, 0xa7, 0x3b,
    0x3c, 0x6e, 0xf3, 0x72, 0xfe, 0x94, 0xf8, 0x2b, 0xa5, 0x4f, 0xf5, 0x3a, 0x5f, 0x1d, 0x36, 0xf1,
    0x51, 0x0e, 0x52, 0x7f, 0xad, 0xe6, 0x82, 0xd1, 0x9b, 0x05, 0x68, 0x8c, 0x2b, 0x3e, 0x6c, 0x1f,
    0x1f, 0x83, 0xd9, 0xab, 0xfb, 0x41, 0xbd, 0x6b, 0x5b, 0xe0, 0xcd, 0x19, 0x13, 0x7e, 0x21, 0x79,
];

/// What is said of a seed that is too short.
pub const ERR_SEED_TOO_SHORT: &'static str = "The seed length is too short";

/// What is said of a ciphersuite identifier that is not accepted.
pub const ERR_CIPHERSUITE: &'static str = "Invalid ciphersuite ID";

/// Whether `id` names a supported ciphersuite: whether it is one of
/// [`VALID_CIPHERSUITE`].
pub open spec fn valid_ciphersuite(id: u8) -> bool {
    id == VALID_CIPHERSUITE@[0] || id == VALID_CIPHERSUITE@[1]
}

/// Tests `id` against the accepted ciphersuite identifiers.
pub fn is_valid_ciphersuite(id: u8) -> (ok: bool)
    ensures
        ok == valid_ciphersuite(id),
{
    let mut i: usize = 0;
    while i < 2
        invariant
            i <= 2,
            forall|j: int| 0 <= j < i ==> VALID_CIPHERSUITE@[j] != id,
        decreases 2 - i,
    {
        if VALID_CIPHERSUITE[i] == id {
            return true;
        }
        i += 1;
    }
    false
}

} // verus!
