//! HKDF over SHA-512, through the `hkdf` crate, and the labels under which
//! the elements of a parameter set are expanded.

use vstd::prelude::*;
use crate::error::ParamError;
use hkdf::Hkdf;
use hkdf::InvalidLength;
use sha2::Sha512;
use sha2::digest::generic_array::GenericArray;

verus! {

/// The number of bytes of a pseudorandom key: the output size of SHA-512.
pub const PRK_LEN: usize = 64;

/// The number of bytes that are expanded for one group element.
pub const OKM_LEN: usize = 32;

/// The largest output that one expansion can give: 255 blocks of the hash.
pub const MAX_OKM_LEN: usize = 16320;

/// The label under which the element `h` is expanded: `H2G_h` in ASCII.
pub const H2G_LABEL: [u8; 5] = [0x48, 0x32, 0x47, 0x5f, 0x68];

/// The pseudorandom key that HKDF-Extract over SHA-512 gives for a salt and
/// input keying material.
pub uninterp spec fn hkdf_extract(salt: Seq<u8>, ikm: Seq<u8>) -> Seq<u8>;

/// The first `len` bytes that HKDF-Expand over SHA-512 gives for a
/// pseudorandom key and an info string.
pub uninterp spec fn hkdf_expand(prk: Seq<u8>, info: Seq<u8>, len: nat) -> Seq<u8>;

/// The error of `Hkdf::expand`, which says no more than that too much
/// output was asked for.
#[verifier::external_type_specification]
#[verifier::external_body]
pub struct ExInvalidLength(InvalidLength);

/// `Hkdf::<Sha512>::extract` with a salt. Trusted: the key that comes back
/// is the one named by [`hkdf_extract`], and it has the 64 bytes of a
/// SHA-512 output.
#[verifier::external_body]
pub(crate) fn extract(salt: &[u8], ikm: &[u8]) -> (prk: Vec<u8>)
    ensures
        prk@ == hkdf_extract(salt@, ikm@),
        prk@.len() == PRK_LEN,
{
    Hkdf::<Sha512>::extract(Some(salt), ikm).prk.to_vec()
}

/// `Hkdf::<Sha512>::expand` into a buffer of `len` bytes. Trusted: the call
/// fails exactly when more than 255 hash blocks are asked for, and
/// otherwise fills the buffer with the bytes named by [`hkdf_expand`].
#[verifier::external_body]
fn expand(prk: &[u8], info: &[u8], len: usize) -> (okm: Result<Vec<u8>, InvalidLength>)
    requires
        prk@.len() == PRK_LEN,
    ensures
        okm is Ok <==> len <= MAX_OKM_LEN,
        okm matches Ok(bytes) ==> bytes@ == hkdf_expand(prk@, info@, len as nat) && bytes@.len()
            == len,
{
    let hk = Hkdf::<Sha512> { prk: GenericArray::clone_from_slice(prk) };
    let mut bytes = vec![0u8; len];
    match hk.expand(info, &mut bytes) {
        Ok(()) => Ok(bytes),
        Err(e) => Err(e),
    }
}

/// The info string of the element for tree level `i`: the label followed by
/// the level as one byte.
pub open spec fn level_label(i: u8) -> Seq<u8> {
    H2G_LABEL@.push(i)
}

/// Builds the info string of the element for tree level `i`.
pub fn level_info(i: u8) -> (info: Vec<u8>)
    ensures
        info@ == level_label(i),
{
    let mut info: Vec<u8> = Vec::new();
    let mut k: usize = 0;
    while k < 5
        invariant
            k <= 5,
            info@ == H2G_LABEL@.take(k as int),
        decreases 5 - k,
    {
        info.push(H2G_LABEL[k]);
        k += 1;
    }
    info.push(i);
    info
}

/// The bytes from which the element under `info` is hashed to the curve.
pub open spec fn element_okm(prk: Seq<u8>, info: Seq<u8>) -> Seq<u8> {
    hkdf_expand(prk, info, OKM_LEN as nat)
}

/// Expands the 32 bytes of one element from a pseudorandom key.
///
/// A key that is not [`PRK_LEN`] bytes long is no output of the extraction
/// step and is refused; the expansion itself cannot fail for so short an
/// output.
pub fn expand_element(prk: &[u8], info: &[u8]) -> (okm: Result<Vec<u8>, ParamError>)
    ensures
        prk@.len() == PRK_LEN ==> okm is Ok,
        prk@.len() != PRK_LEN ==> okm == Err::<Vec<u8>, ParamError>(ParamError::InternalKdfError),
        okm matches Ok(bytes) ==> bytes@ == element_okm(prk@, info@) && bytes@.len() == OKM_LEN,
{
    if prk.len() != PRK_LEN {
        return Err(ParamError::InternalKdfError);
    }
    match expand(prk, info, OKM_LEN) {
        Ok(bytes) => Ok(bytes),
        Err(_) => Err(ParamError::InternalKdfError),
    }
}

} // verus!
