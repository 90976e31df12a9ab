//! The two groups of the scheme and the encoding of their elements.
//!
//! The scheme swaps the groups of BLS12-381, so that public keys are short:
//! [`PixelG1`] is the curve's G2 and [`PixelG2`] is the curve's G1. The
//! arithmetic belongs to the `pairing-plus` crate. An element is held here
//! as its uncompressed affine encoding, from which the curve library
//! rebuilds the element whenever it has work to do on it.
//!
//! Nothing is proved of the curve library. What it writes and reads has a
//! name ([`g1_encoding`], [`g1_decoding`] and their like), and what is
//! assumed of an element that it hands out stands in one place,
//! [`is_g1_point`] and [`is_g2_point`]: its encodings have the documented
//! lengths and compression flag, and are read back as the element. All that
//! is proved of the wire format is proved from that.

use vstd::prelude::*;
use crate::bytes::compression_flag;
use crate::bytes::has_compression_flag;
use crate::bytes::write_all;
use crate::bytes::bytes_equal;
use crate::error::ParamError;
use pairing_plus::bls12_381::G1;
use pairing_plus::bls12_381::G1Uncompressed;
use pairing_plus::bls12_381::G2;
use pairing_plus::bls12_381::G2Uncompressed;
use pairing_plus::hash_to_curve::HashToCurve;
use pairing_plus::hash_to_field::ExpandMsgXmd;
use pairing_plus::serdes::SerDes;
use pairing_plus::CurveProjective;
use pairing_plus::EncodedPoint;
use sha2::Sha256;

verus! {

/// The length of a compressed [`PixelG1`] element.
pub const G1_COMPRESSED: usize = 96;

/// The length of an uncompressed [`PixelG1`] element.
pub const G1_UNCOMPRESSED: usize = 192;

/// The length of the encoding of a [`PixelG1`] element in either form.
pub open spec fn g1_size(compressed: bool) -> nat {
    if compressed {
        G1_COMPRESSED as nat
    } else {
        G1_UNCOMPRESSED as nat
    }
}

/// The element of [`PixelG1`] to which the curve library hashes a message
/// under a ciphersuite, as its uncompressed encoding.
pub uninterp spec fn g1_hash(msg: Seq<u8>, ciphersuite: u8) -> Seq<u8>;

/// The bytes that the curve library writes for an element of [`PixelG1`],
/// compressed or not. The element is given by its uncompressed encoding.
pub uninterp spec fn g1_encoding(point: Seq<u8>, compressed: bool) -> Seq<u8>;

/// The element of [`PixelG1`] that the curve library reads from `bytes`
/// when told which form to expect, as its uncompressed encoding; `None`
/// where it refuses the bytes.
pub uninterp spec fn g1_decoding(bytes: Seq<u8>, compressed: bool) -> Option<Seq<u8>>;

/// The encoding of `point` in one form has the length and the flag of that
/// form, and reads back as `point`.
pub open spec fn g1_codec_agrees(point: Seq<u8>, compressed: bool) -> bool {
    let bytes = g1_encoding(point, compressed);
    &&& bytes.len() == g1_size(compressed)
    &&& has_compression_flag(bytes[0]) == compressed
    &&& g1_decoding(bytes, compressed) == Some(point)
}

/// `point` is the uncompressed encoding of an element of [`PixelG1`]: the
/// curve library writes the element as `point`, and reads either encoding
/// of it back as the same element.
pub open spec fn is_g1_point(point: Seq<u8>) -> bool {
    &&& g1_encoding(point, false) == point
    &&& g1_codec_agrees(point, false)
    &&& g1_codec_agrees(point, true)
}

/// The error with which the curve library refuses bytes. Nothing is read
/// from it: every refusal is a malformed point.
#[verifier::external_type_specification]
#[verifier::external_body]
pub struct ExIoError(std::io::Error);

/// An element of the first group of the scheme, the one in which `h` and
/// the list of a parameter set lie: a point of the curve's G2, held as its
/// uncompressed encoding of 192 bytes.
#[derive(Clone, Copy, Debug)]
pub struct PixelG1 {
    bytes: [u8; 192],
}

impl View for PixelG1 {
    type V = Seq<u8>;

    closed spec fn view(&self) -> Seq<u8> {
        self.bytes@
    }
}

/// `<G2 as HashToCurve<ExpandMsgXmd<Sha256>>>::hash_to_curve`, with the
/// ciphersuite identifier as a domain separation tag of one byte. Trusted:
/// the element depends on the message and the ciphersuite alone, and it is
/// an element of the group, as the curve library documents of every value
/// of its point types, so that its codec reads it back.
#[verifier::external_body]
pub(crate) fn hash_to_g1(msg: &[u8], ciphersuite: u8) -> (p: PixelG1)
    ensures
        p@ == g1_hash(msg@, ciphersuite),
        is_g1_point(p@),
{
    let point = <G2 as HashToCurve<ExpandMsgXmd<Sha256>>>::hash_to_curve(msg, [ciphersuite]);
    let raw = G2Uncompressed::from_affine(point.into_affine());
    PixelG1 { bytes: raw.as_ref().try_into().unwrap() }
}

/// `<G2 as SerDes>::serialize` into an empty buffer. Trusted: the bytes
/// written are those named by [`g1_encoding`]. The curve point is rebuilt
/// from the encoding held, which the curve library accepts where
/// `requires` holds, and writing to a `Vec` does not fail.
#[verifier::external_body]
fn g1_encode(p: &PixelG1, compressed: bool) -> (bytes: Vec<u8>)
    requires
        is_g1_point(p@),
    ensures
        bytes@ == g1_encoding(p@, compressed),
{
    let point = <G2 as SerDes>::deserialize(&mut p.bytes.as_slice(), false).unwrap();
    let mut bytes = Vec::new();
    point.serialize(&mut bytes, compressed).unwrap();
    bytes
}

/// `<G2 as SerDes>::deserialize` from a byte string. Trusted: success and
/// the element read are those named by [`g1_decoding`], and an element that
/// was read is an element of the group, which the codec reads back from
/// either encoding.
#[verifier::external_body]
fn g1_decode(bytes: &[u8], compressed: bool) -> (res: Result<PixelG1, std::io::Error>)
    ensures
        res is Ok <==> g1_decoding(bytes@, compressed) is Some,
        res matches Ok(p) ==> g1_decoding(bytes@, compressed) == Some(p@) && is_g1_point(p@),
{
    let mut reader = bytes;
    let point = <G2 as SerDes>::deserialize(&mut reader, compressed)?;
    let raw = G2Uncompressed::from_affine(point.into_affine());
    Ok(PixelG1 { bytes: raw.as_ref().try_into().unwrap() })
}

/// What reading one [`PixelG1`] element off the front of `bytes` gives: the
/// element and the form in which it was written, or the reason why there is
/// none.
pub open spec fn spec_read_g1(bytes: Seq<u8>) -> Result<(Seq<u8>, bool), ParamError> {
    if bytes.len() < G1_COMPRESSED {
        Err(ParamError::UnexpectedEof)
    } else {
        let compressed = has_compression_flag(bytes[0]);
        if bytes.len() < g1_size(compressed) {
            Err(ParamError::UnexpectedEof)
        } else {
            match g1_decoding(bytes.take(g1_size(compressed) as int), compressed) {
                Some(point) => Ok((point, compressed)),
                None => Err(ParamError::MalformedPoint),
            }
        }
    }
}

impl PixelG1 {
    #[verifier::type_invariant]
    spec fn inv(self) -> bool {
        is_g1_point(self@)
    }

    /// The uncompressed encoding by which the element is held.
    pub fn as_bytes(&self) -> (bytes: &[u8])
        ensures
            bytes@ == self@,
            is_g1_point(self@),
    {
        proof {
            use_type_invariant(self);
        }
        self.bytes.as_slice()
    }

    /// The number of bytes that an element takes in the given form.
    pub fn size(compressed: bool) -> (n: usize)
        ensures
            n == g1_size(compressed),
    {
        if compressed {
            G1_COMPRESSED
        } else {
            G1_UNCOMPRESSED
        }
    }

    /// Appends the encoding of the element to `writer`, compressed or not.
    /// The first bit written tells which form it is.
    pub fn serialize(&self, writer: &mut Vec<u8>, compressed: bool)
        ensures
            final(writer)@ == old(writer)@ + g1_encoding(self@, compressed),
            is_g1_point(self@),
    {
        proof {
            use_type_invariant(self);
        }
        let bytes = g1_encode(self, compressed);
        write_all(writer, bytes.as_slice());
    }

    /// Reads one element off the front of `reader` and tells in which form
    /// it was written. The form is read off the first bit; a compressed
    /// element takes [`G1_COMPRESSED`] bytes, an uncompressed one
    /// [`G1_UNCOMPRESSED`]. On failure nothing is taken from `reader`.
    pub fn deserialize(reader: &mut &[u8]) -> (res: Result<(PixelG1, bool), ParamError>)
        ensures
            (match spec_read_g1(old(reader)@) {
                Ok((point, compressed)) => {
                    &&& res matches Ok((p, c))
                    &&& p@ == point
                    &&& c == compressed
                    &&& is_g1_point(point)
                    &&& final(reader)@ == old(reader)@.skip(g1_size(compressed) as int)
                },
                Err(e) => res == Err::<(PixelG1, bool), ParamError>(e) && final(reader)@ == old(
                    reader,
                )@,
            }),
    {
        let input: &[u8] = *reader;
        if input.len() < G1_COMPRESSED {
            return Err(ParamError::UnexpectedEof);
        }
        let compressed: bool = compression_flag(input[0]);
        let size: usize = PixelG1::size(compressed);
        if input.len() < size {
            return Err(ParamError::UnexpectedEof);
        }
        let (head, rest) = input.split_at(size);
        match g1_decode(head, compressed) {
            Ok(p) => {
                *reader = rest;
                Ok((p, compressed))
            },
            Err(_) => Err(ParamError::MalformedPoint),
        }
    }
}

impl PartialEq for PixelG1 {
    fn eq(&self, other: &Self) -> (same: bool) {
        bytes_equal(self.bytes.as_slice(), other.bytes.as_slice())
    }
}

impl vstd::std_specs::cmp::PartialEqSpecImpl for PixelG1 {
    open spec fn obeys_eq_spec() -> bool {
        true
    }

    open spec fn eq_spec(&self, other: &Self) -> bool {
        self@ == other@
    }
}

impl Eq for PixelG1 {

}

/// The length of a compressed [`PixelG2`] element.
pub const G2_COMPRESSED: usize = 48;

/// The length of an uncompressed [`PixelG2`] element.
pub const G2_UNCOMPRESSED: usize = 96;

/// The length of the encoding of a [`PixelG2`] element in either form.
pub open spec fn g2_size(compressed: bool) -> nat {
    if compressed {
        G2_COMPRESSED as nat
    } else {
        G2_UNCOMPRESSED as nat
    }
}

/// The bytes that the curve library writes for an element of [`PixelG2`],
/// compressed or not. The element is given by its uncompressed encoding.
pub uninterp spec fn g2_encoding(point: Seq<u8>, compressed: bool) -> Seq<u8>;

/// The element of [`PixelG2`] that the curve library reads from `bytes`
/// when told which form to expect, as its uncompressed encoding; `None`
/// where it refuses the bytes.
pub uninterp spec fn g2_decoding(bytes: Seq<u8>, compressed: bool) -> Option<Seq<u8>>;

/// The encoding of `point` in one form has the length and the flag of that
/// form, and reads back as `point`.
pub open spec fn g2_codec_agrees(point: Seq<u8>, compressed: bool) -> bool {
    let bytes = g2_encoding(point, compressed);
    &&& bytes.len() == g2_size(compressed)
    &&& has_compression_flag(bytes[0]) == compressed
    &&& g2_decoding(bytes, compressed) == Some(point)
}

/// `point` is the uncompressed encoding of an element of [`PixelG2`]: the
/// curve library writes the element as `point`, and reads either encoding
/// of it back as the same element.
pub open spec fn is_g2_point(point: Seq<u8>) -> bool {
    &&& g2_encoding(point, false) == point
    &&& g2_codec_agrees(point, false)
    &&& g2_codec_agrees(point, true)
}

/// An element of the second group of the scheme, the one of the generator
/// `g2` and of public keys: a point of the curve's G1, held as its
/// uncompressed encoding of 96 bytes.
#[derive(Clone, Copy, Debug)]
pub struct PixelG2 {
    bytes: [u8; 96],
}

impl View for PixelG2 {
    type V = Seq<u8>;

    closed spec fn view(&self) -> Seq<u8> {
        self.bytes@
    }
}

/// The encoding of the generator of [`PixelG2`]: the two affine coordinates
/// of the generator of the curve's G1, each as 48 bytes, big-endian.
pub const G2_GENERATOR: [u8; 96] = [
    0x17, 0xf1, 0xd3, 0xa7, 0x31, 0x97, 0xd7, 0x94, 0x26, 0x95, 0x63, 0x8c, 0x4f, 0xa9, 0xac, 0x0f,
    0xc3, 0x68, 0x8c, 0x4f, 0x97, 0x74, 0xb9, 0x05, 0xa1, 0x4e, 0x3a, 0x3f, 0x17, 0x1b, 0xac, 0x58,
    0x6c, 0x55, 0xe8, 0x3f, 0xf9, 0x7a, 0x1a, 0xef, 0xfb, 0x3a, 0xf0, 0x0a, 0xdb, 0x22, 0xc6, 0xbb,
    0x08, 0xb3, 0xf4, 0x81, 0xe3, 0xaa, 0xa0, 0xf1, 0xa0, 0x9e, 0x30, 0xed, 0x74, 0x1d, 0x8a, 0xe4,
    0xfc, 0xf5, 0xe0, 0x95, 0xd5, 0xd0, 0x0a, 0xf6, 0x00, 0xdb, 0x18, 0xcb, 0x2c, 0x04, 0xb3, 0xed,
    0xd0, 0x3c, 0xc7, 0x44, 0xa2, 0x88, 0x8a, 0xe4, 0x0c, 0xaa, 0x23, 0x29, 0x46, 0xc5, 0xe7, 0xe1,
];

/// `<G1 as CurveProjective>::one`. Trusted: the element is the generator
/// whose coordinates the curve library documents, and it is an element of
/// the group, so that the codec reads it back.
#[verifier::external_body]
pub(crate) fn g2_one() -> (p: PixelG2)
    ensures
        p@ == G2_GENERATOR@,
        is_g2_point(p@),
{
    let raw = G1Uncompressed::from_affine(G1::one().into_affine());
    PixelG2 { bytes: raw.as_ref().try_into().unwrap() }
}

/// `<G1 as SerDes>::serialize` into an empty buffer. Trusted: the bytes
/// written are those named by [`g2_encoding`]. The curve point is rebuilt
/// from the encoding held, which the curve library accepts where
/// `requires` holds, and writing to a `Vec` does not fail.
#[verifier::external_body]
fn g2_encode(p: &PixelG2, compressed: bool) -> (bytes: Vec<u8>)
    requires
        is_g2_point(p@),
    ensures
        bytes@ == g2_encoding(p@, compressed),
{
    let point = <G1 as SerDes>::deserialize(&mut p.bytes.as_slice(), false).unwrap();
    let mut bytes = Vec::new();
    point.serialize(&mut bytes, compressed).unwrap();
    bytes
}

/// `<G1 as SerDes>::deserialize` from a byte string. Trusted: success and
/// the element read are those named by [`g2_decoding`], and an element that
/// was read is an element of the group, which the codec reads back from
/// either encoding.
#[verifier::external_body]
fn g2_decode(bytes: &[u8], compressed: bool) -> (res: Result<PixelG2, std::io::Error>)
    ensures
        res is Ok <==> g2_decoding(bytes@, compressed) is Some,
        res matches Ok(p) ==> g2_decoding(bytes@, compressed) == Some(p@) && is_g2_point(p@),
{
    let mut reader = bytes;
    let point = <G1 as SerDes>::deserialize(&mut reader, compressed)?;
    let raw = G1Uncompressed::from_affine(point.into_affine());
    Ok(PixelG2 { bytes: raw.as_ref().try_into().unwrap() })
}

/// What reading one [`PixelG2`] element off the front of `bytes` gives: the
/// element and the form in which it was written, or the reason why there is
/// none.
pub open spec fn spec_read_g2(bytes: Seq<u8>) -> Result<(Seq<u8>, bool), ParamError> {
    if bytes.len() < G2_COMPRESSED {
        Err(ParamError::UnexpectedEof)
    } else {
        let compressed = has_compression_flag(bytes[0]);
        if bytes.len() < g2_size(compressed) {
            Err(ParamError::UnexpectedEof)
        } else {
            match g2_decoding(bytes.take(g2_size(compressed) as int), compressed) {
                Some(point) => Ok((point, compressed)),
                None => Err(ParamError::MalformedPoint),
            }
        }
    }
}

impl PixelG2 {
    #[verifier::type_invariant]
    spec fn inv(self) -> bool {
        is_g2_point(self@)
    }

    /// The uncompressed encoding by which the element is held.
    pub fn as_bytes(&self) -> (bytes: &[u8])
        ensures
            bytes@ == self@,
            is_g2_point(self@),
    {
        proof {
            use_type_invariant(self);
        }
        self.bytes.as_slice()
    }

    /// The number of bytes that an element takes in the given form.
    pub fn size(compressed: bool) -> (n: usize)
        ensures
            n == g2_size(compressed),
    {
        if compressed {
            G2_COMPRESSED
        } else {
            G2_UNCOMPRESSED
        }
    }

    /// Appends the encoding of the element to `writer`, compressed or not.
    /// The first bit written tells which form it is.
    pub fn serialize(&self, writer: &mut Vec<u8>, compressed: bool)
        ensures
            final(writer)@ == old(writer)@ + g2_encoding(self@, compressed),
            is_g2_point(self@),
    {
        proof {
            use_type_invariant(self);
        }
        let bytes = g2_encode(self, compressed);
        write_all(writer, bytes.as_slice());
    }

    /// Reads one element off the front of `reader` and tells in which form
    /// it was written. The form is read off the first bit; a compressed
    /// element takes [`G2_COMPRESSED`] bytes, an uncompressed one
    /// [`G2_UNCOMPRESSED`]. On failure nothing is taken from `reader`.
    pub fn deserialize(reader: &mut &[u8]) -> (res: Result<(PixelG2, bool), ParamError>)
        ensures
            (match spec_read_g2(old(reader)@) {
                Ok((point, compressed)) => {
                    &&& res matches Ok((p, c))
                    &&& p@ == point
                    &&& c == compressed
                    &&& is_g2_point(point)
                    &&& final(reader)@ == old(reader)@.skip(g2_size(compressed) as int)
                },
                Err(e) => res == Err::<(PixelG2, bool), ParamError>(e) && final(reader)@ == old(
                    reader,
                )@,
            }),
    {
        let input: &[u8] = *reader;
        if input.len() < G2_COMPRESSED {
            return Err(ParamError::UnexpectedEof);
        }
        let compressed: bool = compression_flag(input[0]);
        let size: usize = PixelG2::size(compressed);
        if input.len() < size {
            return Err(ParamError::UnexpectedEof);
        }
        let (head, rest) = input.split_at(size);
        match g2_decode(head, compressed) {
            Ok(p) => {
                *reader = rest;
                Ok((p, compressed))
            },
            Err(_) => Err(ParamError::MalformedPoint),
        }
    }
}

impl PartialEq for PixelG2 {
    fn eq(&self, other: &Self) -> (same: bool) {
        bytes_equal(self.bytes.as_slice(), other.bytes.as_slice())
    }
}

impl vstd::std_specs::cmp::PartialEqSpecImpl for PixelG2 {
    open spec fn obeys_eq_spec() -> bool {
        true
    }

    open spec fn eq_spec(&self, other: &Self) -> bool {
        self@ == other@
    }
}

impl Eq for PixelG2 {

}

} // verus!
