// The wire format: what is written, what is read back, and what is refused.

use pixel_param::bytes::{bytes_equal, compression_flag, read_exact, write_all};
use pixel_param::group::{G1_COMPRESSED, G1_UNCOMPRESSED, G2_COMPRESSED, G2_UNCOMPRESSED};
use pixel_param::serdes::{bytes_missing, read_points};
use pixel_param::{ParamError, PixelG1, PixelG2, PubParam, PP_LEN_COMPRESSED, PP_LEN_UNCOMPRESSED};
use sha2::{Digest, Sha256};

fn sample() -> PubParam {
    let seed: Vec<u8> = (0u8..48).collect();
    PubParam::init(&seed, 1).unwrap()
}

fn written(pp: &PubParam, compressed: bool) -> Vec<u8> {
    let mut buf = Vec::new();
    pp.serialize(&mut buf, compressed).unwrap();
    buf
}

// The bytes of `pp` where `g2` is written as `g2_flag` says and the other
// elements as `flags` says: `flags[0]` for `h`, then the list.
fn written_mixed(pp: &PubParam, g2_flag: bool, flags: &[bool]) -> Vec<u8> {
    let mut buf = vec![pp.get_ciphersuite(), pp.get_d() as u8];
    pp.get_g2().serialize(&mut buf, g2_flag);
    pp.get_h().serialize(&mut buf, flags[0]);
    for (e, flag) in pp.get_hlist().iter().zip(&flags[1..]) {
        e.serialize(&mut buf, *flag);
    }
    buf
}

#[test]
fn flag_is_the_top_bit() {
    assert!(compression_flag(0x80));
    assert!(compression_flag(0xff));
    assert!(compression_flag(0x93));
    assert!(!compression_flag(0x7f));
    assert!(!compression_flag(0x00));
    assert!(!compression_flag(0x17));
}

#[test]
fn bytes_equal_compares_content_and_length() {
    assert!(bytes_equal(&[], &[]));
    assert!(bytes_equal(&[1, 2, 3], &[1, 2, 3]));
    assert!(!bytes_equal(&[1, 2, 3], &[1, 2, 4]));
    assert!(!bytes_equal(&[1, 2, 3], &[1, 2]));
    assert!(!bytes_equal(&[], &[0]));
}

#[test]
fn write_all_appends() {
    let mut buf = vec![9u8, 8];
    write_all(&mut buf, &[1, 2, 3]);
    assert_eq!(buf, vec![9, 8, 1, 2, 3]);
    write_all(&mut buf, &[]);
    assert_eq!(buf, vec![9, 8, 1, 2, 3]);
}

#[test]
fn read_exact_takes_from_the_front_or_nothing() {
    let data = [1u8, 2, 3, 4, 5];
    let mut reader: &[u8] = &data;
    assert_eq!(read_exact(&mut reader, 2), Some(&data[..2]));
    assert_eq!(reader, &data[2..]);
    assert_eq!(read_exact(&mut reader, 4), None);
    assert_eq!(reader, &data[2..]);
    assert_eq!(read_exact(&mut reader, 3), Some(&data[2..]));
    assert!(reader.is_empty());
    assert_eq!(read_exact(&mut reader, 0), Some(&data[..0]));
}

#[test]
fn element_sizes_are_those_of_the_curve() {
    assert_eq!(PixelG1::size(true), 96);
    assert_eq!(PixelG1::size(false), 192);
    assert_eq!(PixelG2::size(true), 48);
    assert_eq!(PixelG2::size(false), 96);
    assert_eq!((G1_COMPRESSED, G1_UNCOMPRESSED), (96, 192));
    assert_eq!((G2_COMPRESSED, G2_UNCOMPRESSED), (48, 96));
}

#[test]
fn element_encoding_has_the_size_and_the_flag_of_its_form() {
    let pp = sample();
    for compressed in [true, false] {
        let mut buf = Vec::new();
        pp.get_h().serialize(&mut buf, compressed);
        assert_eq!(buf.len(), PixelG1::size(compressed));
        assert_eq!(compression_flag(buf[0]), compressed);
        let mut buf = Vec::new();
        pp.get_g2().serialize(&mut buf, compressed);
        assert_eq!(buf.len(), PixelG2::size(compressed));
        assert_eq!(compression_flag(buf[0]), compressed);
    }
}

#[test]
fn uncompressed_encoding_is_the_held_encoding() {
    let pp = sample();
    let mut buf = Vec::new();
    pp.get_h().serialize(&mut buf, false);
    assert_eq!(&buf[..], pp.get_h().as_bytes());
    let mut buf = Vec::new();
    pp.get_g2().serialize(&mut buf, false);
    assert_eq!(&buf[..], pp.get_g2().as_bytes());
}

#[test]
fn compressed_generator_is_its_x_coordinate_with_the_flag() {
    let pp = sample();
    let mut buf = Vec::new();
    pp.get_g2().serialize(&mut buf, true);
    let held = pp.get_g2();
    let x = &held.as_bytes()[..48];
    assert_eq!(buf[0] & 0x1f, x[0]);
    assert_eq!(&buf[1..], &x[1..]);
}

#[test]
fn serialize_appends_to_the_writer() {
    let pp = sample();
    let mut buf = vec![0xaau8, 0xbb];
    pp.get_h().serialize(&mut buf, true);
    assert_eq!(&buf[..2], &[0xaa, 0xbb]);
    assert_eq!(buf.len(), 2 + 96);
    let mut buf = vec![0xaau8, 0xbb, 0xcc];
    pp.serialize(&mut buf, true).unwrap();
    assert_eq!(&buf[..3], &[0xaa, 0xbb, 0xcc]);
    assert_eq!(&buf[3..], &written(&pp, true)[..]);
}

#[test]
fn element_round_trip() {
    let pp = sample();
    for compressed in [true, false] {
        for e in pp.get_hlist().iter().take(3) {
            let mut buf = Vec::new();
            e.serialize(&mut buf, compressed);
            buf.extend_from_slice(&[7, 7, 7]);
            let mut reader: &[u8] = &buf;
            let (back, form) = PixelG1::deserialize(&mut reader).unwrap();
            assert_eq!(&back, e);
            assert_eq!(form, compressed);
            assert_eq!(reader, &[7, 7, 7]);
        }
        let mut buf = Vec::new();
        pp.get_g2().serialize(&mut buf, compressed);
        let mut reader: &[u8] = &buf;
        let (back, form) = PixelG2::deserialize(&mut reader).unwrap();
        assert_eq!(back, pp.get_g2());
        assert_eq!(form, compressed);
        assert!(reader.is_empty());
    }
}

#[test]
fn short_element_is_an_unexpected_end() {
    let pp = sample();
    let mut buf = Vec::new();
    pp.get_h().serialize(&mut buf, false);
    for cut in [0usize, 1, 95, 96, 191] {
        let mut reader: &[u8] = &buf[..cut];
        assert_eq!(PixelG1::deserialize(&mut reader).unwrap_err(), ParamError::UnexpectedEof);
        assert_eq!(reader.len(), cut);
    }
    let mut buf = Vec::new();
    pp.get_g2().serialize(&mut buf, true);
    let mut reader: &[u8] = &buf[..47];
    assert_eq!(PixelG2::deserialize(&mut reader).unwrap_err(), ParamError::UnexpectedEof);
    assert_eq!(reader.len(), 47);
}

#[test]
fn bytes_that_are_no_element_are_malformed() {
    // a compressed element whose coordinate is not below the modulus
    let bad = [0xffu8; 96];
    let mut reader: &[u8] = &bad;
    assert_eq!(PixelG1::deserialize(&mut reader).unwrap_err(), ParamError::MalformedPoint);
    assert_eq!(reader.len(), 96);
    // an uncompressed element that is not on the curve
    let mut bad = [0u8; 96];
    bad[47] = 1;
    bad[95] = 1;
    let mut reader: &[u8] = &bad;
    assert_eq!(PixelG2::deserialize(&mut reader).unwrap_err(), ParamError::MalformedPoint);
    // the point at infinity with other bits set
    let mut bad = [0u8; 48];
    bad[0] = 0xc0;
    bad[47] = 1;
    let mut reader: &[u8] = &bad;
    assert_eq!(PixelG2::deserialize(&mut reader).unwrap_err(), ParamError::MalformedPoint);
}

#[test]
fn serialized_length_is_the_storage_size() {
    let pp = sample();
    for compressed in [true, false] {
        assert_eq!(written(&pp, compressed).len(), pp.get_size(compressed));
    }
    assert_eq!(written(&pp, true).len(), PP_LEN_COMPRESSED);
    assert_eq!(written(&pp, false).len(), PP_LEN_UNCOMPRESSED);
}

#[test]
fn default_set_has_the_published_lengths() {
    let pp = PubParam::init_without_seed();
    assert_eq!(written(&pp, false).len(), 6626);
    assert_eq!(written(&pp, true).len(), 3314);
}

#[test]
fn default_set_is_the_known_answer() {
    // SHA-256 of the two serializations of the default parameter set
    let pp = PubParam::init_without_seed();
    assert_eq!(
        Sha256::digest(&written(&pp, true)).to_vec(),
        vec![
            0xfc, 0x03, 0xa0, 0x97, 0xcd, 0x1d, 0x25, 0x00, 0x44, 0xe3, 0xb5, 0x66, 0x21, 0x87,
            0x88, 0x90, 0x0d, 0xc9, 0x09, 0xcb, 0x05, 0x0f, 0x95, 0xee, 0xf6, 0x6b, 0x2a, 0x40,
            0x16, 0x4b, 0x88, 0x8f,
        ]
    );
    assert_eq!(
        Sha256::digest(&written(&pp, false)).to_vec(),
        vec![
            0xd9, 0xad, 0x93, 0xe7, 0xf1, 0x73, 0x82, 0x7c, 0x62, 0x61, 0xbe, 0xef, 0x8e, 0x59,
            0x15, 0x43, 0x16, 0x8a, 0x25, 0x4b, 0xaa, 0x90, 0x06, 0xf2, 0x9f, 0xb7, 0x1a, 0x86,
            0xce, 0x45, 0x5a, 0x00,
        ]
    );
}

#[test]
fn bytes_missing_leads_a_reader_through_the_set() {
    let pp = sample();
    for compressed in [true, false] {
        let all = written(&pp, compressed);
        assert_eq!(bytes_missing(&all[..0]), 2);
        assert_eq!(bytes_missing(&all[..1]), 1);
        assert_eq!(bytes_missing(&all[..2]), 48);
        assert_eq!(bytes_missing(&all[..49]), 1);
        assert_eq!(bytes_missing(&all[..50]), all.len() - 50);
        assert_eq!(bytes_missing(&all[..all.len() - 1]), 1);
        assert_eq!(bytes_missing(&all), 0);
        // a reader that follows it ends with the whole set
        let mut buf: Vec<u8> = Vec::new();
        let mut reads = 0;
        while bytes_missing(&buf) > 0 {
            let n = bytes_missing(&buf);
            let start = buf.len();
            buf.extend_from_slice(&all[start..start + n]);
            reads += 1;
        }
        assert_eq!(reads, 3);
        assert_eq!(buf, all);
    }
}

#[test]
fn bytes_missing_asks_nothing_after_a_bad_header() {
    assert_eq!(bytes_missing(&[0, 31]), 0);
    assert_eq!(bytes_missing(&[2, 32]), 0);
    assert_eq!(bytes_missing(&[0, 32]), 48);
    assert_eq!(bytes_missing(&[1, 32, 0x80]), 47);
}

#[test]
fn layout_is_header_generator_h_list() {
    let pp = sample();
    let buf = written(&pp, true);
    assert_eq!(buf[0], 1);
    assert_eq!(buf[1], 32);
    let mut expected = vec![1u8, 32];
    pp.get_g2().serialize(&mut expected, true);
    pp.get_h().serialize(&mut expected, true);
    for e in pp.get_hlist().iter() {
        e.serialize(&mut expected, true);
    }
    assert_eq!(buf, expected);
    assert_eq!(buf, written_mixed(&pp, true, &[true; 34]));
}

#[test]
fn round_trip_in_both_forms() {
    let pp = sample();
    for compressed in [true, false] {
        let buf = written(&pp, compressed);
        let mut reader: &[u8] = &buf;
        let (back, form) = PubParam::deserialize(&mut reader).unwrap();
        assert_eq!(back, pp);
        assert_eq!(form, compressed);
        assert!(reader.is_empty());
        assert_eq!(back.get_ciphersuite(), 1);
        assert_eq!(back.get_d(), 32);
        assert_eq!(back.get_hlist().len(), 33);
    }
}

#[test]
fn bytes_after_the_set_are_left_in_the_reader() {
    let pp = sample();
    let mut buf = written(&pp, true);
    buf.extend_from_slice(&[1, 2, 3, 4]);
    let mut reader: &[u8] = &buf;
    let (back, form) = PubParam::deserialize(&mut reader).unwrap();
    assert_eq!(back, pp);
    assert!(form);
    assert_eq!(reader, &[1, 2, 3, 4]);
}

#[test]
fn equality_does_not_depend_on_the_form() {
    let pp = sample();
    let compressed = written(&pp, true);
    let uncompressed = written(&pp, false);
    assert_ne!(compressed, uncompressed);
    let a = PubParam::deserialize(&mut &compressed[..]).unwrap().0;
    let b = PubParam::deserialize(&mut &uncompressed[..]).unwrap().0;
    assert_eq!(a, b);
}

#[test]
fn mixed_forms_are_refused() {
    let pp = sample();
    // h differs from g2
    let mut flags = [true; 34];
    flags[0] = false;
    let buf = written_mixed(&pp, true, &flags);
    let mut reader: &[u8] = &buf;
    assert_eq!(
        PubParam::deserialize(&mut reader).unwrap_err(),
        ParamError::InconsistentCompression
    );
    assert_eq!(reader.len(), buf.len());
    // the last list element differs
    let mut flags = [false; 34];
    flags[33] = true;
    let buf = written_mixed(&pp, false, &flags);
    assert_eq!(
        PubParam::deserialize(&mut &buf[..]).unwrap_err(),
        ParamError::InconsistentCompression
    );
    // g2 differs from all the others
    let buf = written_mixed(&pp, false, &[true; 34]);
    assert_eq!(
        PubParam::deserialize(&mut &buf[..]).unwrap_err(),
        ParamError::InconsistentCompression
    );
}

#[test]
fn other_depth_is_refused() {
    let pp = sample();
    for depth in [0u8, 31, 33, 255] {
        let mut buf = written(&pp, true);
        buf[1] = depth;
        let mut reader: &[u8] = &buf;
        assert_eq!(PubParam::deserialize(&mut reader).unwrap_err(), ParamError::DepthMismatch);
        assert_eq!(reader.len(), buf.len());
    }
    // the header alone decides
    assert_eq!(PubParam::deserialize(&mut &[0u8, 31][..]).unwrap_err(), ParamError::DepthMismatch);
}

#[test]
fn depth_is_checked_before_ciphersuite() {
    assert_eq!(PubParam::deserialize(&mut &[9u8, 31][..]).unwrap_err(), ParamError::DepthMismatch);
}

#[test]
fn unknown_ciphersuite_in_header_is_refused() {
    let pp = sample();
    let mut buf = written(&pp, false);
    buf[0] = 2;
    assert_eq!(
        PubParam::deserialize(&mut &buf[..]).unwrap_err(),
        ParamError::InvalidCiphersuite
    );
    assert_eq!(
        PubParam::deserialize(&mut &[200u8, 32][..]).unwrap_err(),
        ParamError::InvalidCiphersuite
    );
}

#[test]
fn truncated_input_is_an_unexpected_end() {
    let pp = sample();
    let buf = written(&pp, true);
    for cut in [0usize, 1, 2, 49, 50, 145, 146, buf.len() - 1] {
        let mut reader: &[u8] = &buf[..cut];
        assert_eq!(PubParam::deserialize(&mut reader).unwrap_err(), ParamError::UnexpectedEof);
        assert_eq!(reader.len(), cut);
    }
}

#[test]
fn corrupted_element_is_malformed() {
    let pp = sample();
    let mut buf = written(&pp, true);
    // the x-coordinate of h, overwritten by a value above the modulus
    for b in buf[51..146].iter_mut() {
        *b = 0xff;
    }
    buf[50] = 0x9f;
    assert_eq!(PubParam::deserialize(&mut &buf[..]).unwrap_err(), ParamError::MalformedPoint);
}

#[test]
fn read_points_reads_a_list_in_one_form() {
    let pp = sample();
    let list = pp.get_hlist();
    let mut buf = Vec::new();
    for e in list.iter().take(3) {
        e.serialize(&mut buf, false);
    }
    buf.push(0x55);
    let mut reader: &[u8] = &buf;
    let back = read_points(&mut reader, 3, false).unwrap();
    assert_eq!(&back[..], &list[..3]);
    assert_eq!(reader, &[0x55]);
    // none asked for, none taken
    let mut reader: &[u8] = &buf;
    assert!(read_points(&mut reader, 0, true).unwrap().is_empty());
    assert_eq!(reader.len(), buf.len());
    // the other form is refused, and one element too many is not there
    let mut reader: &[u8] = &buf;
    assert_eq!(
        read_points(&mut reader, 3, true).unwrap_err(),
        ParamError::InconsistentCompression
    );
    assert_eq!(reader.len(), buf.len());
    assert_eq!(read_points(&mut reader, 4, false).unwrap_err(), ParamError::UnexpectedEof);
    assert_eq!(reader.len(), buf.len());
}
