//! The public parameters and their derivation from a seed.

use vstd::prelude::*;
use vstd::std_specs::cmp::PartialEqSpec;
use vstd::string::StringSliceAdditionalSpecFns;
use crate::constants::is_valid_ciphersuite;
use crate::constants::valid_ciphersuite;
use crate::constants::CONST_D;
use crate::constants::DOM_SEP_PARAM_GEN;
use crate::constants::MIN_SEED_LEN;
use crate::constants::SHA512_IV;
use crate::error::ParamError;
use crate::group::g1_hash;
use crate::group::g2_one;
use crate::group::hash_to_g1;
use crate::group::is_g1_point;
use crate::group::is_g2_point;
use crate::group::PixelG1;
use crate::group::PixelG2;
use crate::group::G1_COMPRESSED;
use crate::group::G1_UNCOMPRESSED;
use crate::group::G2_COMPRESSED;
use crate::group::G2_GENERATOR;
use crate::group::G2_UNCOMPRESSED;
use crate::kdf::element_okm;
use crate::kdf::expand_element;
use crate::kdf::extract;
use crate::kdf::hkdf_extract;
use crate::kdf::level_info;
use crate::kdf::level_label;
use crate::kdf::H2G_LABEL;
use crate::kdf::PRK_LEN;
use crate::serdes::PP_LEN_COMPRESSED;
use crate::serdes::PP_LEN_UNCOMPRESSED;

verus! {

/// A parameter set as plain data: each group element by its uncompressed
/// encoding.
pub struct PubParamView {
    /// The depth of the time tree.
    pub d: nat,
    /// The ciphersuite identifier.
    pub ciphersuite: u8,
    /// The generator of [`PixelG2`].
    pub g2: Seq<u8>,
    /// The element `h` of [`PixelG1`].
    pub h: Seq<u8>,
    /// The elements `h_0, ..., h_d` of [`PixelG1`].
    pub hlist: Seq<Seq<u8>>,
}

impl PubParamView {
    /// What holds of every parameter set: the depth is that of the scheme,
    /// the ciphersuite is a supported one, there is one list element for
    /// each tree level from 0 to the depth, and all elements are group
    /// elements.
    pub open spec fn wf(self) -> bool {
        &&& self.d == CONST_D
        &&& valid_ciphersuite(self.ciphersuite)
        &&& is_g2_point(self.g2)
        &&& is_g1_point(self.h)
        &&& self.hlist.len() == self.d + 1
        &&& forall|i: int| 0 <= i < self.hlist.len() ==> is_g1_point(#[trigger] self.hlist[i])
    }
}

/// The public parameters of the scheme: the generator `g2` of [`PixelG2`],
/// an element `h` of [`PixelG1`], and one more element of [`PixelG1`] for
/// each level of the time tree.
#[derive(Debug)]
pub struct PubParam {
    d: usize,
    ciphersuite: u8,
    g2: PixelG2,
    h: PixelG1,
    hlist: Vec<PixelG1>,
}

impl View for PubParam {
    type V = PubParamView;

    closed spec fn view(&self) -> PubParamView {
        PubParamView {
            d: self.d as nat,
            ciphersuite: self.ciphersuite,
            g2: self.g2@,
            h: self.h@,
            hlist: self.hlist@.map_values(|p: PixelG1| p@),
        }
    }
}

impl Clone for PubParam {
    fn clone(&self) -> (pp: Self)
        ensures
            pp@ == self@,
    {
        proof {
            use_type_invariant(self);
        }
        let hlist = self.get_hlist();
        PubParam { d: self.d, ciphersuite: self.ciphersuite, g2: self.g2, h: self.h, hlist }
    }
}

/// The element of [`PixelG1`] that a pseudorandom key gives under an info
/// string: 32 bytes are expanded and hashed to the curve.
pub open spec fn derived_element(prk: Seq<u8>, info: Seq<u8>, ciphersuite: u8) -> Seq<u8> {
    g1_hash(element_okm(prk, info), ciphersuite)
}

/// The list elements that a pseudorandom key gives for a tree of the given
/// depth: one for each level from 0 to the depth.
pub open spec fn derived_hlist(prk: Seq<u8>, ciphersuite: u8, depth: u8) -> Seq<Seq<u8>> {
    Seq::new((depth + 1) as nat, |i: int| derived_element(prk, level_label(i as u8), ciphersuite))
}

/// The parameter set that a seed and a ciphersuite give.
pub open spec fn derived_param(seed: Seq<u8>, ciphersuite: u8) -> PubParamView {
    let prk = hkdf_extract(DOM_SEP_PARAM_GEN.spec_bytes(), seed);
    PubParamView {
        d: CONST_D as nat,
        ciphersuite,
        g2: G2_GENERATOR@,
        h: derived_element(prk, H2G_LABEL@, ciphersuite),
        hlist: derived_hlist(prk, ciphersuite, CONST_D as u8),
    }
}

/// What [`PubParam::init`] owes for a seed and a ciphersuite: a seed that is
/// too short is refused first, then an unknown ciphersuite; every other
/// input gives the derived parameter set.
pub open spec fn init_spec(seed: Seq<u8>, ciphersuite: u8) -> Result<PubParamView, ParamError> {
    if seed.len() < MIN_SEED_LEN {
        Err(ParamError::SeedTooShort)
    } else if !valid_ciphersuite(ciphersuite) {
        Err(ParamError::InvalidCiphersuite)
    } else {
        Ok(derived_param(seed, ciphersuite))
    }
}

/// Whether `res` is what [`PubParam::init`] may return for the inputs.
pub open spec fn is_init_result(
    seed: Seq<u8>,
    ciphersuite: u8,
    res: Result<PubParam, ParamError>,
) -> bool {
    match init_spec(seed, ciphersuite) {
        Ok(v) => res matches Ok(pp) && pp@ == v && v.wf(),
        Err(e) => res == Err::<PubParam, ParamError>(e),
    }
}

/// The length of the encoding of a parameter set for a tree of the given
/// depth: two header bytes, the generator of [`PixelG2`], and `depth + 2`
/// elements of [`PixelG1`].
pub open spec fn spec_storage_size(compressed: bool, depth: nat) -> nat {
    if compressed {
        (2 + G2_COMPRESSED + (depth + 2) * G1_COMPRESSED) as nat
    } else {
        (2 + G2_UNCOMPRESSED + (depth + 2) * G1_UNCOMPRESSED) as nat
    }
}

/// Computes the number of bytes that a parameter set for a tree of the
/// given depth takes when written, without writing it.
pub fn storage_size(compressed: bool, depth: u8) -> (n: usize)
    ensures
        n == spec_storage_size(compressed, depth as nat),
{
    let points: usize = depth as usize + 2;
    2 + PixelG2::size(compressed) + points * PixelG1::size(compressed)
}

/// Derives one element of [`PixelG1`] from a pseudorandom key and an info
/// string.
///
/// Fails with `InternalKdfError` exactly when `prk` has not the length of
/// an extracted key.
pub fn derive_element(prk: &[u8], info: &[u8], ciphersuite: u8) -> (res: Result<
    PixelG1,
    ParamError,
>)
    ensures
        prk@.len() == PRK_LEN ==> res is Ok,
        prk@.len() != PRK_LEN ==> res == Err::<PixelG1, ParamError>(ParamError::InternalKdfError),
        res matches Ok(p) ==> p@ == derived_element(prk@, info@, ciphersuite) && is_g1_point(p@),
{
    match expand_element(prk, info) {
        Ok(okm) => Ok(hash_to_g1(okm.as_slice(), ciphersuite)),
        Err(e) => Err(e),
    }
}

/// Derives the list elements for a tree of the given depth: the element of
/// level `i` is expanded under the label followed by the byte `i`.
///
/// Fails with `InternalKdfError` exactly when `prk` has not the length of
/// an extracted key. Otherwise the list has `depth + 1` elements.
pub fn derive_hlist(prk: &[u8], ciphersuite: u8, depth: u8) -> (res: Result<
    Vec<PixelG1>,
    ParamError,
>)
    ensures
        prk@.len() == PRK_LEN ==> res is Ok,
        prk@.len() != PRK_LEN ==> res == Err::<Vec<PixelG1>, ParamError>(
            ParamError::InternalKdfError,
        ),
        res matches Ok(list) ==> list@.len() == depth + 1,
        res matches Ok(list) ==> list@.map_values(|p: PixelG1| p@) == derived_hlist(
            prk@,
            ciphersuite,
            depth,
        ),
        res matches Ok(list) ==> forall|i: int|
            0 <= i < list@.len() ==> is_g1_point(#[trigger] list@[i]@),
{
    let mut list: Vec<PixelG1> = Vec::new();
    let mut i: usize = 0;
    while i <= depth as usize
        invariant
            i <= depth + 1,
            list@.len() == i,
            forall|j: int|
                0 <= j < i ==> (#[trigger] list@[j])@ == derived_element(
                    prk@,
                    level_label(j as u8),
                    ciphersuite,
                ),
            forall|j: int| 0 <= j < i ==> is_g1_point(#[trigger] list@[j]@),
            i > 0 ==> prk@.len() == PRK_LEN,
        decreases depth + 1 - i,
    {
        let info = level_info(i as u8);
        match derive_element(prk, info.as_slice(), ciphersuite) {
            Ok(p) => {
                list.push(p);
            },
            Err(e) => {
                return Err(e);
            },
        }
        i += 1;
    }
    Ok(list)
}

impl PubParam {
    #[verifier::type_invariant]
    spec fn inv(self) -> bool {
        self@.wf()
    }

    /// Puts a parameter set together from its parts.
    pub(crate) fn assemble(ciphersuite: u8, g2: PixelG2, h: PixelG1, hlist: Vec<PixelG1>) -> (pp:
        PubParam)
        requires
            valid_ciphersuite(ciphersuite),
            is_g2_point(g2@),
            is_g1_point(h@),
            hlist@.len() == CONST_D + 1,
            forall|i: int| 0 <= i < hlist@.len() ==> is_g1_point(#[trigger] hlist@[i]@),
        ensures
            pp@.wf(),
            pp@.d == CONST_D,
            pp@.ciphersuite == ciphersuite,
            pp@.g2 == g2@,
            pp@.h == h@,
            pp@.hlist == hlist@.map_values(|p: PixelG1| p@),
    {
        PubParam { d: CONST_D, ciphersuite, g2, h, hlist }
    }

    /// The ciphersuite identifier of the parameter set.
    pub fn get_ciphersuite(&self) -> (id: u8)
        ensures
            id == self@.ciphersuite,
            valid_ciphersuite(id),
    {
        proof {
            use_type_invariant(self);
        }
        self.ciphersuite
    }

    /// The depth of the time tree.
    pub fn get_d(&self) -> (d: usize)
        ensures
            d == self@.d,
            d == CONST_D,
    {
        proof {
            use_type_invariant(self);
        }
        self.d
    }

    /// The generator of [`PixelG2`].
    pub fn get_g2(&self) -> (g2: PixelG2)
        ensures
            g2@ == self@.g2,
            is_g2_point(g2@),
    {
        proof {
            use_type_invariant(self);
        }
        self.g2
    }

    /// The element `h`: the first element of [`PixelG1`] in the parameter
    /// set.
    pub fn get_h(&self) -> (h: PixelG1)
        ensures
            h@ == self@.h,
            is_g1_point(h@),
    {
        proof {
            use_type_invariant(self);
        }
        self.h
    }

    /// The elements `h_0, ..., h_d`, one for each level of the time tree.
    pub fn get_hlist(&self) -> (list: Vec<PixelG1>)
        ensures
            list@.len() == self@.d + 1,
            list@.map_values(|p: PixelG1| p@) == self@.hlist,
            self@.wf(),
    {
        proof {
            use_type_invariant(self);
        }
        let mut list: Vec<PixelG1> = Vec::new();
        let mut i: usize = 0;
        while i < self.hlist.len()
            invariant
                i <= self.hlist@.len(),
                list@ == self.hlist@.take(i as int),
            decreases self.hlist@.len() - i,
        {
            list.push(self.hlist[i]);
            i += 1;
        }
        list
    }

    /// The number of bytes that the parameter set takes when written:
    /// [`PP_LEN_COMPRESSED`] or [`PP_LEN_UNCOMPRESSED`].
    pub fn get_size(&self, compressed: bool) -> (n: usize)
        ensures
            n == spec_storage_size(compressed, self@.d),
            compressed ==> n == PP_LEN_COMPRESSED,
            !compressed ==> n == PP_LEN_UNCOMPRESSED,
    {
        proof {
            use_type_invariant(self);
        }
        storage_size(compressed, self.d as u8)
    }

    /// Derives the parameter set of a seed and a ciphersuite:
    ///
    /// 1. `g2` is the generator of [`PixelG2`];
    /// 2. `m = HKDF-Extract(DOM_SEP_PARAM_GEN, seed)`;
    /// 3. `h = hash_to_group(HKDF-Expand(m, "H2G_h", 32), ciphersuite)`;
    /// 4. `h_i = hash_to_group(HKDF-Expand(m, "H2G_h" | I2OSP(i, 1), 32),
    ///    ciphersuite)` for each level `i` from 0 to the depth.
    ///
    /// A seed of fewer than 32 bytes is refused with `SeedTooShort`; after
    /// that, a ciphersuite that is not supported with `InvalidCiphersuite`.
    /// No other input fails.
    pub fn init(seed: &[u8], ciphersuite: u8) -> (res: Result<PubParam, ParamError>)
        ensures
            is_init_result(seed@, ciphersuite, res),
    {
        if seed.len() < MIN_SEED_LEN {
            return Err(ParamError::SeedTooShort);
        }
        if !is_valid_ciphersuite(ciphersuite) {
            return Err(ParamError::InvalidCiphersuite);
        }
        let prk = extract(DOM_SEP_PARAM_GEN.as_bytes(), seed);
        let h = match derive_element(prk.as_slice(), H2G_LABEL.as_slice(), ciphersuite) {
            Ok(h) => h,
            Err(e) => {
                return Err(e);
            },
        };
        let hlist = match derive_hlist(prk.as_slice(), ciphersuite, CONST_D as u8) {
            Ok(hlist) => hlist,
            Err(e) => {
                return Err(e);
            },
        };
        Ok(PubParam::assemble(ciphersuite, g2_one(), h, hlist))
    }

    /// The parameter set of the default seed, [`SHA512_IV`], and
    /// ciphersuite 0.
    pub fn init_without_seed() -> (pp: PubParam)
        ensures
            pp@ == derived_param(SHA512_IV@, 0),
            pp@.wf(),
    {
        PubParam::init(SHA512_IV.as_slice(), 0).unwrap()
    }
}

impl PartialEq for PubParam {
    fn eq(&self, other: &Self) -> (same: bool) {
        proof {
            use_type_invariant(self);
            use_type_invariant(other);
        }
        if self.d != other.d {
            return false;
        }
        let mut i: usize = 0;
        while i <= self.d
            invariant
                i <= self.d + 1,
                self.d == CONST_D,
                self.hlist@.len() == self.d + 1,
                other.hlist@.len() == self.d + 1,
                forall|j: int| 0 <= j < i ==> (#[trigger] self.hlist@[j])@ == other.hlist@[j]@,
            decreases self.d + 1 - i,
        {
            if self.hlist[i] != other.hlist[i] {
                assert(self@.hlist[i as int] != other@.hlist[i as int]);
                return false;
            }
            i += 1;
        }
        assert(self@.hlist =~= other@.hlist);
        self.ciphersuite == other.ciphersuite && self.g2 == other.g2 && self.h == other.h
    }
}

impl vstd::std_specs::cmp::PartialEqSpecImpl for PubParam {
    open spec fn obeys_eq_spec() -> bool {
        true
    }

    /// Two parameter sets are equal when their depths, their ciphersuites
    /// and all their elements are.
    open spec fn eq_spec(&self, other: &Self) -> bool {
        self@ == other@
    }
}

impl Default for PubParam {
    /// The parameter set of the default seed and ciphersuite 0.
    fn default() -> (pp: Self)
        ensures
            pp@ == derived_param(SHA512_IV@, 0),
            pp@.wf(),
    {
        PubParam::init_without_seed()
    }
}

/// Derivation is a function of its inputs: two results of [`PubParam::init`]
/// for one seed and one ciphersuite fail alike or are parameter sets that
/// are equal field by field.
pub proof fn lemma_init_deterministic(
    seed: Seq<u8>,
    ciphersuite: u8,
    a: Result<PubParam, ParamError>,
    b: Result<PubParam, ParamError>,
)
    requires
        is_init_result(seed, ciphersuite, a),
        is_init_result(seed, ciphersuite, b),
    ensures
        a is Ok <==> b is Ok,
        a matches Err(e) ==> b == Err::<PubParam, ParamError>(e),
        a matches Ok(x) ==> b matches Ok(y) && x@ == y@ && x.eq_spec(&y),
{
}

/// Every derived parameter set has one list element for each tree level
/// from 0 to its depth, and so has every list that is derived for a depth
/// of its own, the depth 0 among them.
pub proof fn lemma_hlist_len(seed: Seq<u8>, prk: Seq<u8>, ciphersuite: u8, depth: u8)
    ensures
        derived_param(seed, ciphersuite).hlist.len() == derived_param(seed, ciphersuite).d + 1,
        derived_hlist(prk, ciphersuite, depth).len() == depth + 1,
{
}

} // verus!
