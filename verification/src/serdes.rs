//! The wire format of a parameter set.
//!
//! ```text
//! | ciphersuite id | depth | g2 | h | h_0 | ... | h_d |
//! ```
//!
//! The identifier and the depth take one byte each. Every group element is
//! written in the same form, compressed or not, and its first bit tells
//! which: a reader needs nothing but the bytes.

use vstd::prelude::*;
use crate::bytes::compression_flag;
use crate::bytes::has_compression_flag;
use crate::bytes::read_exact;
use crate::bytes::write_all;
use crate::constants::is_valid_ciphersuite;
use crate::constants::valid_ciphersuite;
use crate::constants::CONST_D;
use crate::error::ParamError;
use crate::group::g1_encoding;
use crate::group::g1_size;
use crate::group::g2_encoding;
use crate::group::g2_size;
use crate::group::is_g1_point;
use crate::group::is_g2_point;
use crate::group::spec_read_g1;
use crate::group::spec_read_g2;
use crate::group::PixelG1;
use crate::group::PixelG2;
use crate::group::G2_COMPRESSED;
use crate::param::storage_size;
use crate::param::spec_storage_size;
use crate::param::PubParam;
use crate::param::PubParamView;

verus! {

/// The length of a parameter set in the compressed format.
pub const PP_LEN_COMPRESSED: usize = 3314;

/// The length of a parameter set in the uncompressed format.
pub const PP_LEN_UNCOMPRESSED: usize = 6626;

/// The encodings of `points`, one after the other, the `i`-th in the form
/// that `flags[i]` names.
pub open spec fn encode_points(points: Seq<Seq<u8>>, flags: Seq<bool>) -> Seq<u8>
    decreases points.len(),
{
    if points.len() == 0 {
        Seq::empty()
    } else {
        g1_encoding(points.first(), flags.first()) + encode_points(
            points.drop_first(),
            flags.drop_first(),
        )
    }
}

/// `n` times the same form.
pub open spec fn uniform(n: nat, compressed: bool) -> Seq<bool> {
    Seq::new(n, |i: int| compressed)
}

/// The elements of [`PixelG1`] in a parameter set, in the order in which
/// they are written: `h`, then the list.
pub open spec fn g1_points(pp: PubParamView) -> Seq<Seq<u8>> {
    seq![pp.h] + pp.hlist
}

/// The two bytes in front of the elements.
pub open spec fn spec_header(pp: PubParamView) -> Seq<u8> {
    seq![pp.ciphersuite, pp.d as u8]
}

/// The bytes of a parameter set whose elements are written each in a form
/// of its own: `g2` as `g2_flag` says, the others as `flags` says.
pub open spec fn spec_serialize_mixed(pp: PubParamView, g2_flag: bool, flags: Seq<bool>) -> Seq<
    u8,
> {
    spec_header(pp) + g2_encoding(pp.g2, g2_flag) + encode_points(g1_points(pp), flags)
}

/// The bytes of a parameter set, all elements compressed or none.
pub open spec fn spec_serialize(pp: PubParamView, compressed: bool) -> Seq<u8> {
    spec_serialize_mixed(pp, compressed, uniform(pp.hlist.len() + 1, compressed))
}

/// What reading `count` elements of [`PixelG1`] off the front of `bytes`
/// gives, where each has to be in the form `compressed`. The first element
/// that cannot be read, or that is in the other form, decides the error.
pub open spec fn spec_read_points(bytes: Seq<u8>, count: nat, compressed: bool) -> Result<
    Seq<Seq<u8>>,
    ParamError,
>
    decreases count,
{
    if count == 0 {
        Ok(Seq::empty())
    } else {
        match spec_read_g1(bytes) {
            Err(e) => Err(e),
            Ok((point, c)) => if c != compressed {
                Err(ParamError::InconsistentCompression)
            } else {
                match spec_read_points(
                    bytes.skip(g1_size(c) as int),
                    (count - 1) as nat,
                    compressed,
                ) {
                    Err(e) => Err(e),
                    Ok(rest) => Ok(seq![point] + rest),
                }
            },
        }
    }
}

/// What reading a parameter set off the front of `bytes` gives: the set and
/// the form of its elements, or the first reason why there is none.
///
/// The header is checked first, the depth before the ciphersuite. The form
/// of `g2` is then asked of every other element.
pub open spec fn spec_deserialize(bytes: Seq<u8>) -> Result<(PubParamView, bool), ParamError> {
    if bytes.len() < 2 {
        Err(ParamError::UnexpectedEof)
    } else if bytes[1] != CONST_D {
        Err(ParamError::DepthMismatch)
    } else if !valid_ciphersuite(bytes[0]) {
        Err(ParamError::InvalidCiphersuite)
    } else {
        match spec_read_g2(bytes.skip(2)) {
            Err(e) => Err(e),
            Ok((g2, compressed)) => match spec_read_points(
                bytes.skip(2 + g2_size(compressed) as int),
                (CONST_D + 2) as nat,
                compressed,
            ) {
                Err(e) => Err(e),
                Ok(points) => Ok(
                    (
                        PubParamView {
                            d: CONST_D as nat,
                            ciphersuite: bytes[0],
                            g2,
                            h: points[0],
                            hlist: points.skip(1),
                        },
                        compressed,
                    ),
                ),
            },
        }
    }
}

/// A result of reading elements with `front` put before the elements read.
spec fn prepend(front: Seq<Seq<u8>>, res: Result<Seq<Seq<u8>>, ParamError>) -> Result<
    Seq<Seq<u8>>,
    ParamError,
> {
    match res {
        Ok(rest) => Ok(front + rest),
        Err(e) => Err(e),
    }
}

/// All of `points` are group elements.
pub open spec fn all_g1_points(points: Seq<Seq<u8>>) -> bool {
    forall|i: int| 0 <= i < points.len() ==> is_g1_point(#[trigger] points[i])
}

/// All of `flags` are `compressed`.
pub open spec fn all_flags(flags: Seq<bool>, compressed: bool) -> bool {
    forall|i: int| 0 <= i < flags.len() ==> #[trigger] flags[i] == compressed
}

/// Writing one more element appends its encoding.
proof fn lemma_encode_points_push(
    points: Seq<Seq<u8>>,
    flags: Seq<bool>,
    point: Seq<u8>,
    flag: bool,
)
    requires
        points.len() == flags.len(),
    ensures
        encode_points(points.push(point), flags.push(flag)) == encode_points(points, flags)
            + g1_encoding(point, flag),
    decreases points.len(),
{
    let ps = points.push(point);
    let fs = flags.push(flag);
    if points.len() == 0 {
        assert(encode_points(ps.drop_first(), fs.drop_first()) =~= Seq::<u8>::empty());
    } else {
        assert(ps.drop_first() =~= points.drop_first().push(point));
        assert(fs.drop_first() =~= flags.drop_first().push(flag));
        lemma_encode_points_push(points.drop_first(), flags.drop_first(), point, flag);
    }
}

/// The encodings of group elements in one form take as many bytes as there
/// are elements, times the size of that form.
proof fn lemma_encode_points_len(points: Seq<Seq<u8>>, compressed: bool)
    requires
        all_g1_points(points),
    ensures
        encode_points(points, uniform(points.len(), compressed)).len() == points.len() * g1_size(
            compressed,
        ),
    decreases points.len(),
{
    if points.len() > 0 {
        let rest = points.drop_first();
        assert(uniform(points.len(), compressed).drop_first() =~= uniform(rest.len(), compressed));
        lemma_encode_points_len(rest, compressed);
        assert(points.len() * g1_size(compressed) == rest.len() * g1_size(compressed) + g1_size(
            compressed,
        )) by (nonlinear_arith)
            requires
                points.len() == rest.len() + 1,
        ;
    }
}

/// Reads `count` elements of [`PixelG1`] off the front of `reader`, each of
/// which has to be in the form `compressed`. On failure nothing is taken
/// from `reader`.
pub fn read_points(reader: &mut &[u8], count: usize, compressed: bool) -> (res: Result<
    Vec<PixelG1>,
    ParamError,
>)
    ensures
        (match spec_read_points(old(reader)@, count as nat, compressed) {
            Ok(points) => {
                &&& res matches Ok(list)
                &&& list@.map_values(|p: PixelG1| p@) == points
                &&& points.len() == count
                &&& all_g1_points(points)
                &&& count * g1_size(compressed) <= old(reader)@.len()
                &&& final(reader)@ == old(reader)@.skip(count * g1_size(compressed))
            },
            Err(e) => res == Err::<Vec<PixelG1>, ParamError>(e) && final(reader)@ == old(reader)@,
        }),
{
    let ghost start = reader@;
    let ghost size = g1_size(compressed);
    let mut input: &[u8] = *reader;
    let mut list: Vec<PixelG1> = Vec::new();
    let mut i: usize = 0;
    while i < count
        invariant
            i <= count,
            size == g1_size(compressed),
            start == old(reader)@,
            reader@ == start,
            list@.len() == i,
            all_g1_points(list@.map_values(|p: PixelG1| p@)),
            i * size <= start.len(),
            input@ == start.skip(i * size),
            spec_read_points(start, count as nat, compressed) == prepend(
                list@.map_values(|p: PixelG1| p@),
                spec_read_points(input@, (count - i) as nat, compressed),
            ),
        decreases count - i,
    {
        let ghost front = list@.map_values(|p: PixelG1| p@);
        match PixelG1::deserialize(&mut input) {
            Ok((p, c)) => {
                if c != compressed {
                    return Err(ParamError::InconsistentCompression);
                }
                list.push(p);
                proof {
                    let now = list@.map_values(|p: PixelG1| p@);
                    assert(now =~= front.push(p@));
                    let rest = spec_read_points(input@, (count - i - 1) as nat, compressed);
                    match rest {
                        Ok(r) => {
                            assert(front + (seq![p@] + r) =~= now + r);
                        },
                        Err(_) => {},
                    }
                    assert((i + 1) * size == i * size + size) by (nonlinear_arith);
                }
            },
            Err(e) => {
                return Err(e);
            },
        }
        i += 1;
    }
    *reader = input;
    Ok(list)
}

impl PubParam {
    /// Appends the bytes of the parameter set to `writer`: the ciphersuite
    /// identifier, the depth, then `g2`, `h` and the list, every element in
    /// the form that `compressed` names. [`spec_storage_size`] bytes are
    /// written.
    ///
    /// A parameter set always has a supported ciphersuite, so this does not
    /// fail.
    pub fn serialize(&self, writer: &mut Vec<u8>, compressed: bool) -> (res: Result<
        (),
        ParamError,
    >)
        ensures
            res is Ok,
            final(writer)@ == old(writer)@ + spec_serialize(self@, compressed),
            spec_serialize(self@, compressed).len() == spec_storage_size(compressed, self@.d),
            self@.wf(),
    {
        let ciphersuite: u8 = self.get_ciphersuite();
        if !is_valid_ciphersuite(ciphersuite) {
            return Err(ParamError::InvalidCiphersuite);
        }
        let depth: usize = self.get_d();
        let g2 = self.get_g2();
        let h = self.get_h();
        let hlist = self.get_hlist();
        let ghost view = self@;
        let ghost points = g1_points(view);

        let mut buf: Vec<u8> = Vec::new();
        buf.push(ciphersuite);
        buf.push(depth as u8);
        g2.serialize(&mut buf, compressed);
        h.serialize(&mut buf, compressed);
        proof {
            lemma_encode_points_push(Seq::empty(), Seq::empty(), view.h, compressed);
            assert(Seq::<Seq<u8>>::empty().push(view.h) =~= points.take(1));
            assert(Seq::<bool>::empty().push(compressed) =~= uniform(1, compressed));
        }
        let mut i: usize = 0;
        while i < hlist.len()
            invariant
                i <= hlist@.len(),
                view == self@,
                view.wf(),
                points == g1_points(view),
                hlist@.map_values(|p: PixelG1| p@) == view.hlist,
                buf@ == spec_header(view) + g2_encoding(view.g2, compressed) + encode_points(
                    points.take(i + 1),
                    uniform((i + 1) as nat, compressed),
                ),
            decreases hlist@.len() - i,
        {
            hlist[i].serialize(&mut buf, compressed);
            proof {
                let p = hlist@[i as int]@;
                lemma_encode_points_push(
                    points.take(i + 1),
                    uniform((i + 1) as nat, compressed),
                    p,
                    compressed,
                );
                assert(points.take(i + 1).push(p) =~= points.take(i + 2));
                assert(uniform((i + 1) as nat, compressed).push(compressed) =~= uniform(
                    (i + 2) as nat,
                    compressed,
                ));
            }
            i += 1;
        }
        proof {
            assert(points.take(hlist@.len() + 1 as int) =~= points);
            lemma_serialized_len(view, compressed);
        }
        write_all(writer, buf.as_slice());
        Ok(())
    }

    /// Reads a parameter set off the front of `reader` and tells in which
    /// form its elements were written. Bytes that follow the parameter set
    /// are left in `reader`; on failure nothing is taken from it.
    ///
    /// The errors, in the order in which they are looked for:
    /// `UnexpectedEof` where the input ends early, `DepthMismatch` where the
    /// second byte is not [`CONST_D`], `InvalidCiphersuite` where the first
    /// byte is no supported identifier, `MalformedPoint` where the bytes of
    /// an element are not the encoding of one, `InconsistentCompression`
    /// where an element is not in the form of `g2`.
    pub fn deserialize(reader: &mut &[u8]) -> (res: Result<(PubParam, bool), ParamError>)
        ensures
            (match spec_deserialize(old(reader)@) {
                Ok((view, compressed)) => {
                    &&& res matches Ok((pp, c))
                    &&& pp@ == view
                    &&& c == compressed
                    &&& view.wf()
                    &&& final(reader)@ == old(reader)@.skip(
                        spec_storage_size(compressed, CONST_D as nat) as int,
                    )
                },
                Err(e) => res == Err::<(PubParam, bool), ParamError>(e) && final(reader)@ == old(
                    reader,
                )@,
            }),
    {
        let ghost start = reader@;
        let mut input: &[u8] = *reader;
        let header = match read_exact(&mut input, 2) {
            Some(header) => header,
            None => {
                return Err(ParamError::UnexpectedEof);
            },
        };
        let ciphersuite: u8 = header[0];
        let depth: usize = header[1] as usize;
        if depth != CONST_D {
            return Err(ParamError::DepthMismatch);
        }
        if !is_valid_ciphersuite(ciphersuite) {
            return Err(ParamError::InvalidCiphersuite);
        }
        let (g2, compressed) = match PixelG2::deserialize(&mut input) {
            Ok(read) => read,
            Err(e) => {
                return Err(e);
            },
        };
        proof {
            assert(start.skip(2).skip(g2_size(compressed) as int) =~= start.skip(
                2 + g2_size(compressed) as int,
            ));
        }
        let mut points = match read_points(&mut input, depth + 2, compressed) {
            Ok(points) => points,
            Err(e) => {
                return Err(e);
            },
        };
        let ghost all = points@.map_values(|p: PixelG1| p@);
        let h = points.remove(0);
        proof {
            assert(points@.map_values(|p: PixelG1| p@) =~= all.skip(1));
            assert forall|i: int| 0 <= i < points@.len() implies is_g1_point(
                #[trigger] points@[i]@,
            ) by {
                assert(points@[i]@ == all[i + 1]);
            }
        }
        *reader = input;
        Ok((PubParam::assemble(ciphersuite, g2, h, points), compressed))
    }
}

/// How many bytes a reader has to add to `prefix` before a parameter set
/// can be read from it, as far as `prefix` tells: the header first, then as
/// much of `g2` as shows its form, then all that a parameter set in that
/// form takes. Nothing more is asked for where the header is one that is
/// refused.
pub open spec fn spec_bytes_missing(prefix: Seq<u8>) -> nat {
    if prefix.len() < 2 {
        (2 - prefix.len()) as nat
    } else if prefix[1] != CONST_D || !valid_ciphersuite(prefix[0]) {
        0
    } else if prefix.len() < 2 + G2_COMPRESSED {
        (2 + G2_COMPRESSED - prefix.len()) as nat
    } else {
        let total: nat = spec_storage_size(has_compression_flag(prefix[2]), CONST_D as nat);
        if prefix.len() < total {
            (total - prefix.len()) as nat
        } else {
            0
        }
    }
}

/// Tells a caller that fills a buffer from a stream how many bytes to read
/// next. When the answer is 0 the buffer is ready for
/// [`PubParam::deserialize`].
pub fn bytes_missing(prefix: &[u8]) -> (n: usize)
    ensures
        n == spec_bytes_missing(prefix@),
{
    let len: usize = prefix.len();
    if len < 2 {
        return 2 - len;
    }
    if prefix[1] as usize != CONST_D || !is_valid_ciphersuite(prefix[0]) {
        return 0;
    }
    if len < 2 + G2_COMPRESSED {
        return 2 + G2_COMPRESSED - len;
    }
    let total: usize = storage_size(compression_flag(prefix[2]), CONST_D as u8);
    if len < total {
        total - len
    } else {
        0
    }
}

/// The bytes of a parameter set are as many as [`spec_storage_size`] says,
/// in either form.
pub proof fn lemma_serialized_len(pp: PubParamView, compressed: bool)
    requires
        pp.wf(),
    ensures
        spec_serialize(pp, compressed).len() == spec_storage_size(compressed, pp.d),
{
    lemma_encode_points_len(g1_points(pp), compressed);
}

/// An element of [`PixelG1`] that was written in either form is read back
/// as it was, with its form, whatever follows it; and what follows it is
/// what is left.
pub proof fn lemma_read_written_g1(point: Seq<u8>, compressed: bool, tail: Seq<u8>)
    requires
        is_g1_point(point),
    ensures
        spec_read_g1(g1_encoding(point, compressed) + tail) == Ok::<(Seq<u8>, bool), ParamError>(
            (point, compressed),
        ),
        (g1_encoding(point, compressed) + tail).skip(g1_size(compressed) as int) == tail,
{
    let written = g1_encoding(point, compressed);
    let bytes = written + tail;
    assert(bytes.take(g1_size(compressed) as int) =~= written);
}

/// An element of [`PixelG2`] that was written in either form is read back
/// as it was, with its form, whatever follows it; and what follows it is
/// what is left.
pub proof fn lemma_read_written_g2(point: Seq<u8>, compressed: bool, tail: Seq<u8>)
    requires
        is_g2_point(point),
    ensures
        spec_read_g2(g2_encoding(point, compressed) + tail) == Ok::<(Seq<u8>, bool), ParamError>(
            (point, compressed),
        ),
        (g2_encoding(point, compressed) + tail).skip(g2_size(compressed) as int) == tail,
{
    let written = g2_encoding(point, compressed);
    let bytes = written + tail;
    assert(bytes.take(g2_size(compressed) as int) =~= written);
}

/// Elements that were written, each in a form of its own, are read back as
/// they were where every form is the one asked for; where one is not, the
/// reading fails with `InconsistentCompression`.
pub proof fn lemma_read_written_points(
    points: Seq<Seq<u8>>,
    flags: Seq<bool>,
    compressed: bool,
    tail: Seq<u8>,
)
    requires
        all_g1_points(points),
        flags.len() == points.len(),
    ensures
        spec_read_points(encode_points(points, flags) + tail, points.len(), compressed) == (
        if all_flags(flags, compressed) {
            Ok::<Seq<Seq<u8>>, ParamError>(points)
        } else {
            Err::<Seq<Seq<u8>>, ParamError>(ParamError::InconsistentCompression)
        }),
    decreases points.len(),
{
    if points.len() == 0 {
        assert(points =~= Seq::<Seq<u8>>::empty());
    } else {
        let first = points.first();
        let flag = flags.first();
        let rest = points.drop_first();
        let rest_flags = flags.drop_first();
        let rest_bytes = encode_points(rest, rest_flags) + tail;
        assert(encode_points(points, flags) + tail =~= g1_encoding(first, flag) + rest_bytes);
        lemma_read_written_g1(first, flag, rest_bytes);
        lemma_read_written_points(rest, rest_flags, compressed, tail);
        if flag == compressed && all_flags(rest_flags, compressed) {
            assert(all_flags(flags, compressed)) by {
                assert forall|i: int| 0 <= i < flags.len() implies #[trigger] flags[i]
                    == compressed by {
                    if i > 0 {
                        assert(flags[i] == rest_flags[i - 1]);
                    }
                }
            }
            assert(seq![first] + rest =~= points);
        }
    }
}

/// Reading what was written. Let a parameter set be written with each
/// element in a form of its own, and let any bytes follow. Where all the
/// forms are that of `g2`, the parameter set is read back as it was,
/// together with that form. Where one is not, the reading fails with
/// `InconsistentCompression`.
pub proof fn lemma_deserialize_written(
    pp: PubParamView,
    g2_flag: bool,
    flags: Seq<bool>,
    tail: Seq<u8>,
)
    requires
        pp.wf(),
        flags.len() == pp.d + 2,
    ensures
        spec_deserialize(spec_serialize_mixed(pp, g2_flag, flags) + tail) == (if all_flags(
            flags,
            g2_flag,
        ) {
            Ok::<(PubParamView, bool), ParamError>((pp, g2_flag))
        } else {
            Err::<(PubParamView, bool), ParamError>(ParamError::InconsistentCompression)
        }),
{
    let points = g1_points(pp);
    let bytes = spec_serialize_mixed(pp, g2_flag, flags) + tail;
    let after_g2 = encode_points(points, flags) + tail;
    let after_header = g2_encoding(pp.g2, g2_flag) + after_g2;
    assert(bytes.skip(2) =~= after_header);
    lemma_read_written_g2(pp.g2, g2_flag, after_g2);
    assert(bytes.skip(2 + g2_size(g2_flag) as int) =~= bytes.skip(2).skip(
        g2_size(g2_flag) as int,
    ));
    lemma_read_written_points(points, flags, g2_flag, tail);
    assert(points.skip(1) =~= pp.hlist);
}

/// Round trip: a parameter set that was written, compressed or not, is read
/// back as it was, together with the form in which it was written. Bytes
/// that follow it do not matter.
pub proof fn lemma_roundtrip(pp: PubParamView, compressed: bool, tail: Seq<u8>)
    requires
        pp.wf(),
    ensures
        spec_deserialize(spec_serialize(pp, compressed) + tail) == Ok::<
            (PubParamView, bool),
            ParamError,
        >((pp, compressed)),
{
    lemma_deserialize_written(pp, compressed, uniform(pp.hlist.len() + 1, compressed), tail);
}

/// The parameter set that is read back does not depend on the form in which
/// it was written.
pub proof fn lemma_compression_independent(pp: PubParamView)
    requires
        pp.wf(),
    ensures
        spec_deserialize(spec_serialize(pp, true)) is Ok,
        spec_deserialize(spec_serialize(pp, false)) is Ok,
        spec_deserialize(spec_serialize(pp, true)).unwrap().0 == spec_deserialize(
            spec_serialize(pp, false),
        ).unwrap().0,
{
    lemma_roundtrip(pp, true, Seq::empty());
    lemma_roundtrip(pp, false, Seq::empty());
}

/// Bytes in which compressed and uncompressed elements are mixed are
/// refused: where some element of a written parameter set is in another
/// form than `g2`, reading fails with `InconsistentCompression`.
pub proof fn lemma_mixed_compression_rejected(
    pp: PubParamView,
    g2_flag: bool,
    flags: Seq<bool>,
    k: int,
    tail: Seq<u8>,
)
    requires
        pp.wf(),
        flags.len() == pp.d + 2,
        0 <= k < flags.len(),
        flags[k] != g2_flag,
    ensures
        spec_deserialize(spec_serialize_mixed(pp, g2_flag, flags) + tail) == Err::<
            (PubParamView, bool),
            ParamError,
        >(ParamError::InconsistentCompression),
{
    lemma_deserialize_written(pp, g2_flag, flags, tail);
}

/// Bytes whose depth field is not the depth of the scheme are refused with
/// `DepthMismatch`, whatever else they hold.
pub proof fn lemma_depth_mismatch_rejected(bytes: Seq<u8>)
    requires
        bytes.len() >= 2,
        bytes[1] != CONST_D,
    ensures
        spec_deserialize(bytes) == Err::<(PubParamView, bool), ParamError>(
            ParamError::DepthMismatch,
        ),
{
}

/// A reader that follows [`spec_bytes_missing`] on the bytes of a written
/// parameter set is asked for the header, then for the start of `g2`, then
/// for all the rest, and for nothing after that.
pub proof fn lemma_bytes_missing_of_written(pp: PubParamView, compressed: bool, k: int)
    requires
        pp.wf(),
        0 <= k <= spec_serialize(pp, compressed).len(),
    ensures
        spec_bytes_missing(spec_serialize(pp, compressed).take(k)) == (if k < 2 {
            2 - k
        } else if k < 2 + G2_COMPRESSED {
            2 + G2_COMPRESSED - k
        } else {
            spec_serialize(pp, compressed).len() - k
        }),
{
    lemma_serialized_len(pp, compressed);
}

} // verus!
