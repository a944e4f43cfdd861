use rpm_utils::error::{Error, ErrorKind};
use rpm_utils::reader::ByteReader;
use rpm_utils::utils::{
    align_n_bytes, bytes_eq, find_nul, join_strings, parse_string, parse_strings, text_eq,
    write_hex_u32, HexReader, HexWriter,
};

#[test]
fn test_hex_reader() {
    assert_eq!(ByteReader::new("00000001".as_bytes()).read_hex_as_u32().unwrap(), 1);
    assert_eq!(ByteReader::new("00000101".as_bytes()).read_hex_as_u32().unwrap(), 257);
    assert_eq!(ByteReader::new("000001f1".as_bytes()).read_hex_as_u32().unwrap(), 497);
    assert_eq!(ByteReader::new("ffffffff".as_bytes()).read_hex_as_u32().unwrap(), u32::MAX);
}

#[test]
fn test_hex_writer() {
    let mut buf = Vec::new();
    buf.write_u32_as_hex(1).unwrap();
    assert_eq!(buf.as_slice(), b"00000001");

    let mut buf = Vec::new();
    buf.write_u32_as_hex(257).unwrap();
    assert_eq!(buf.as_slice(), b"00000101");

    let mut buf = Vec::new();
    buf.write_u32_as_hex(497).unwrap();
    assert_eq!(buf.as_slice(), b"000001f1");

    let mut buf = Vec::new();
    buf.write_u32_as_hex(std::u32::MAX).unwrap();
    assert_eq!(buf.as_slice(), b"ffffffff");
}

#[test]
fn hex_reader_rejects_short_and_foreign_input() {
    let mut short = ByteReader::new(b"0000001");
    assert_eq!(short.read_hex_as_u32().unwrap_err().kind(), ErrorKind::InvalidData);
    assert_eq!(short.position(), 0);
    let mut foreign = ByteReader::new(b"0000000g");
    assert_eq!(foreign.read_hex_as_u32().unwrap_err().kind(), ErrorKind::InvalidData);
    assert_eq!(foreign.position(), 0);
    let mut spaced = ByteReader::new(b" 1234567");
    assert_eq!(spaced.read_hex_as_u32().unwrap_err().kind(), ErrorKind::InvalidData);
    let mut mixed = ByteReader::new(b"DeadBeef and more");
    assert_eq!(mixed.read_hex_as_u32().unwrap(), 0xdead_beef);
    assert_eq!(mixed.position(), 8);
}

#[test]
fn hex_round_trip_on_many_numbers() {
    for v in [0u32, 1, 9, 10, 15, 16, 255, 256, 0xabcdef, 0x1234_5678, 0x8000_0000, u32::MAX] {
        let mut buf = vec![b'#'];
        write_hex_u32(&mut buf, v);
        assert_eq!(buf.len(), 9);
        assert_eq!(&buf[1..], format!("{:08x}", v).as_bytes());
        let mut reader = ByteReader::new(&buf[1..]);
        assert_eq!(reader.read_hex_as_u32().unwrap(), v);
    }
}

#[test]
fn alignment_reaches_the_boundary() {
    for n in [4u32, 8] {
        for from in 0..40u32 {
            let pad = align_n_bytes(from, n);
            assert!(pad < n);
            assert_eq!((from + pad) % n, 0);
        }
    }
    assert_eq!(align_n_bytes(0, 4), 0);
    assert_eq!(align_n_bytes(1, 4), 3);
    assert_eq!(align_n_bytes(6, 4), 2);
    assert_eq!(align_n_bytes(u32::MAX, 8), 1);
    assert_eq!(align_n_bytes(u32::MAX, 1), 0);
}

#[test]
fn big_endian_numbers_are_read_and_the_reader_moves() {
    let data = [0x01u8, 0x02, 0x03, 0x04, 0x05, 0x06, 0x07, 0x08, 0x09, 0x0a, 0x0b, 0x0c, 0x0d, 0x0e, 0x0f];
    let mut reader = ByteReader::new(&data);
    assert_eq!(reader.len(), 15);
    assert_eq!(reader.read_be_u8().unwrap(), 0x01);
    assert_eq!(reader.read_be_u16().unwrap(), 0x0203);
    assert_eq!(reader.read_be_u32().unwrap(), 0x0405_0607);
    assert_eq!(reader.position(), 7);
    assert_eq!(reader.read_be_u64().unwrap(), 0x0809_0a0b_0c0d_0e0f);
    assert_eq!(reader.available(), 0);
    assert_eq!(reader.read_be_u8().unwrap_err().kind(), ErrorKind::Io);
    reader.seek(12);
    assert_eq!(reader.read_be_u32().unwrap_err().kind(), ErrorKind::Io);
    assert_eq!(reader.position(), 12);
    assert_eq!(reader.read_be_u16().unwrap(), 0x0d0e);
    reader.seek(100);
    assert_eq!(reader.position(), 15);
    reader.seek(3);
    assert_eq!(reader.skip(4), 4);
    assert_eq!(reader.skip(100), 8);
    assert_eq!(reader.position(), 15);
}

#[test]
fn read_exact_hands_out_the_bytes_or_nothing() {
    let data = b"abcdef";
    let mut reader = ByteReader::new(data);
    assert_eq!(reader.read_exact(2).unwrap(), b"ab");
    assert_eq!(reader.read_exact(0).unwrap(), b"");
    let err: Error = reader.read_exact(5).unwrap_err();
    assert_eq!(err.kind(), ErrorKind::Io);
    assert_eq!(reader.position(), 2);
    assert_eq!(reader.read_exact(4).unwrap(), b"cdef");
}

#[test]
fn texts_end_at_the_first_zero_byte() {
    assert_eq!(parse_string(b"abc\0def\0"), "abc");
    assert_eq!(parse_string(b"\0abc"), "");
    assert_eq!(parse_string(b""), "");
    // Without a zero byte the field reads as empty.
    assert_eq!(parse_string(b"no terminator"), "");
    assert_eq!(parse_string("gr\u{fc}n\0".as_bytes()), "gr\u{fc}n");
    assert_eq!(parse_string(&[b'a', 0xff, b'b', 0]), "a\u{fffd}b");
    assert_eq!(find_nul(b"ab\0cd\0", 0), Some(2));
    assert_eq!(find_nul(b"ab\0cd\0", 3), Some(5));
    assert_eq!(find_nul(b"ab\0cd\0", 6), None);
    assert_eq!(find_nul(b"abc", 0), None);
}

#[test]
fn lists_of_texts_are_split_on_zero_bytes() {
    assert_eq!(parse_strings(b"a\0bc\0d\0", 3), vec!["a", "bc", "d"]);
    assert_eq!(parse_strings(b"a\0bc\0d\0", 2), vec!["a", "bc"]);
    assert_eq!(parse_strings(b"a\0bc\0d\0", 9), vec!["a", "bc", "d", ""]);
    assert_eq!(parse_strings(b"a\0bc\0d", 9), vec!["a", "bc", "d"]);
    assert_eq!(parse_strings(b"", 1), vec![""]);
    assert!(parse_strings(b"a\0", 0).is_empty());
    assert_eq!(parse_strings(b"\0\0", 5), vec!["", "", ""]);
}

#[test]
fn joining_and_comparing_texts() {
    let items = vec!["a".to_owned(), "".to_owned(), "bc".to_owned()];
    assert_eq!(join_strings(&items, ", "), "a, , bc");
    assert_eq!(join_strings(&Vec::new(), ","), "");
    assert!(text_eq("same", "same"));
    assert!(!text_eq("same", "Same"));
    assert!(!text_eq("same", "sam"));
    assert!(bytes_eq(b"", b""));
    assert!(!bytes_eq(b"a", b"b"));
}
