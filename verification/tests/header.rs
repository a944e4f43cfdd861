use omnom::WriteExt;
use rpm_utils::error::ErrorKind;
use rpm_utils::header::{
    HeaderLead, Index, IndexArray, IndexWriter, RType, SigTag, SignatureTag, Tag, TagNamespace,
    Tags, TagsWrite, Type,
};
use rpm_utils::reader::ByteReader;
use std::convert::TryInto;

#[test]
fn test_index_read_write_smoke() {
    let index = Index { itype: Type::Int32, tag: Tag::BuildTime, offset: 10, count: 11 };

    let mut data: Vec<u8> = Vec::new();
    data.write_index(index.clone()).unwrap();

    let mut cursor = ByteReader::new(data.as_slice());
    let index2 = Index::read(&mut cursor).unwrap();

    assert_eq!(index, index2);
}

#[test]
fn test_rtype_as_string() {
    assert_eq!(RType::Null.as_string(), Some(String::new()));
    assert_eq!(
        RType::Bin(vec![0x01, 0x02]).as_string(),
        Some(format!("{:x?}", vec![0x01, 0x02]))
    );
    assert_eq!(RType::Char('a').as_string(), Some("a".to_string()));
    assert_eq!(RType::String("test".to_string()).as_string(), Some("test".to_string()));
    assert_eq!(RType::I18nstring("i18n".to_string()).as_string(), Some("i18n".to_string()));
    assert_eq!(RType::Int8(8).as_string(), Some("8".to_string()));
    assert_eq!(RType::Int16(16).as_string(), Some("16".to_string()));
    assert_eq!(RType::Int32(32).as_string(), Some("32".to_string()));
    assert_eq!(RType::Int64(64).as_string(), Some("64".to_string()));
    assert_eq!(
        RType::StringArray(vec!["a".to_string(), "b".to_string()]).as_string(),
        Some("a,b".to_string())
    );
    assert_eq!(RType::Int8Array(vec![1, 2]).as_string(), None);
    assert_eq!(RType::Int16Array(vec![1, 2]).as_string(), None);
    assert_eq!(RType::Int32Array(vec![1, 2]).as_string(), None);
    assert_eq!(RType::Int64Array(vec![1, 2]).as_string(), None);
}

#[test]
fn test_rtype_as_string_array() {
    assert_eq!(
        RType::StringArray(vec!["a".to_string(), "b".to_string()]).as_string_array(),
        Some(vec!["a".to_string(), "b".to_string()])
    );
    assert_eq!(RType::String("not an array".to_string()).as_string_array(), None);
}

#[test]
fn test_rtype_as_u64() {
    assert_eq!(RType::Int8(8).as_u64(), Some(8));
    assert_eq!(RType::Int16(16).as_u64(), Some(16));
    assert_eq!(RType::Int32(32).as_u64(), Some(32));
    assert_eq!(RType::Int64(64).as_u64(), Some(64));
    assert_eq!(RType::String("not a number".to_string()).as_u64(), None);
}

#[test]
fn test_rtype_as_u64_array() {
    assert_eq!(RType::Int8Array(vec![1, 2]).as_u64_array(), Some(vec![1, 2]));
    assert_eq!(RType::Int16Array(vec![1, 2]).as_u64_array(), Some(vec![1, 2]));
    assert_eq!(RType::Int32Array(vec![1, 2]).as_u64_array(), Some(vec![1, 2]));
    assert_eq!(RType::Int64Array(vec![1, 2]).as_u64_array(), Some(vec![1, 2]));
    assert_eq!(RType::String("not an array".to_string()).as_u64_array(), None);
}

#[test]
fn test_rtype_as_u32() {
    assert_eq!(RType::Int8(8).as_u32(), Some(8));
    assert_eq!(RType::Int16(16).as_u32(), Some(16));
    assert_eq!(RType::Int32(32).as_u32(), Some(32));
    assert_eq!(RType::Int64(64).as_u32(), None);
    assert_eq!(RType::String("not a number".to_string()).as_u32(), None);
}

#[test]
fn test_rtype_as_i64() {
    assert_eq!(RType::Int8(8).as_i64(), Some(8));
    assert_eq!(RType::Int16(16).as_i64(), Some(16));
    assert_eq!(RType::Int32(32).as_i64(), Some(32));
    assert_eq!(RType::Int64(64).as_i64(), None);
    assert_eq!(RType::String("not a number".to_string()).as_i64(), None);
}

#[test]
fn test_rtype_as_u32_array() {
    assert_eq!(RType::Int8Array(vec![1, 2]).as_u32_array(), Some(vec![1, 2]));
    assert_eq!(RType::Int16Array(vec![1, 2]).as_u32_array(), Some(vec![1, 2]));
    assert_eq!(RType::Int32Array(vec![1, 2]).as_u32_array(), Some(vec![1, 2]));
    assert_eq!(RType::Int64Array(vec![1, 2]).as_u32_array(), None);
    assert_eq!(RType::String("not an array".to_string()).as_u32_array(), None);
}

#[test]
fn test_rtype_as_u16() {
    assert_eq!(RType::Int8(8).as_u16(), Some(8));
    assert_eq!(RType::Int16(16).as_u16(), Some(16));
    assert_eq!(RType::Int32(32).as_u16(), None);
    assert_eq!(RType::String("not a number".to_string()).as_u16(), None);
}

#[test]
fn test_rtype_as_u16_array() {
    assert_eq!(RType::Int8Array(vec![1, 2]).as_u16_array(), Some(vec![1, 2]));
    assert_eq!(RType::Int16Array(vec![1, 2]).as_u16_array(), Some(vec![1, 2]));
    assert_eq!(RType::Int32Array(vec![1, 2]).as_u16_array(), None);
    assert_eq!(RType::String("not an array".to_string()).as_u16_array(), None);
}

#[test]
fn test_rtype_as_u8() {
    assert_eq!(RType::Int8(8).as_u8(), Some(8));
    assert_eq!(RType::Int16(16).as_u8(), None);
    assert_eq!(RType::String("not a number".to_string()).as_u8(), None);
}

#[test]
fn test_rtype_as_u8_array() {
    assert_eq!(RType::Int8Array(vec![1, 2]).as_u8_array(), Some(vec![1, 2]));
    assert_eq!(RType::Int16Array(vec![1, 2]).as_u8_array(), None);
    assert_eq!(RType::String("not an array".to_string()).as_u8_array(), None);
}

#[test]
fn test_rtype_as_char() {
    assert_eq!(RType::Char('a').as_char(), Some('a'));
    assert_eq!(RType::Int8(65).as_char(), None);
    assert_eq!(RType::String("a".to_string()).as_char(), None);
}

#[test]
fn test_try_from_rtype_string() {
    let s: Result<String, _> = RType::String("test".to_string()).try_into();
    assert_eq!(s.unwrap(), "test");

    let s: Result<String, _> = RType::Int8Array(vec![1, 2]).try_into();
    assert!(s.is_err());
}

#[test]
fn test_try_from_rtype_string_array() {
    let arr: Result<Vec<String>, _> =
        RType::StringArray(vec!["a".to_string(), "b".to_string()]).try_into();
    assert_eq!(arr.unwrap(), vec!["a", "b"]);

    let arr: Result<Vec<String>, _> = RType::Int8(1).try_into();
    assert!(arr.is_err());
}

#[test]
fn test_try_from_rtype_numeric_types() {
    let n: Result<u8, _> = RType::Int8(42).try_into();
    assert_eq!(n.unwrap(), 42);

    let n: Result<u16, _> = RType::Int16(1000).try_into();
    assert_eq!(n.unwrap(), 1000);

    let n: Result<u32, _> = RType::Int32(100000).try_into();
    assert_eq!(n.unwrap(), 100000);

    let n: Result<u64, _> = RType::Int64(1000000).try_into();
    assert_eq!(n.unwrap(), 1000000);

    let n: Result<u64, _> = RType::String("not a number".to_string()).try_into();
    assert!(n.is_err());
}

#[test]
fn test_try_from_rtype_numeric_arrays() {
    let arr: Result<Vec<u8>, _> = RType::Int8Array(vec![1, 2]).try_into();
    assert_eq!(arr.unwrap(), vec![1, 2]);

    let arr: Result<Vec<u16>, _> = RType::Int16Array(vec![1, 2]).try_into();
    assert_eq!(arr.unwrap(), vec![1, 2]);

    let arr: Result<Vec<u32>, _> = RType::Int32Array(vec![1, 2]).try_into();
    assert_eq!(arr.unwrap(), vec![1, 2]);

    let arr: Result<Vec<u64>, _> = RType::Int64Array(vec![1, 2]).try_into();
    assert_eq!(arr.unwrap(), vec![1, 2]);

    let arr: Result<Vec<u8>, _> = RType::String("not an array".to_string()).try_into();
    assert!(arr.is_err());
}

#[test]
fn test_index_from() {
    let tag = Tag::BuildTime;

    let index = Index::from(&tag, &RType::Null, 10, 1);
    assert_eq!(index.itype, Type::Null);

    let index = Index::from(&tag, &RType::Char('a'), 10, 1);
    assert_eq!(index.itype, Type::Char);

    let index = Index::from(&tag, &RType::Int8(1), 10, 1);
    assert_eq!(index.itype, Type::Int8);

    let index = Index::from(&tag, &RType::Int16(1), 10, 1);
    assert_eq!(index.itype, Type::Int16);

    let index = Index::from(&tag, &RType::Int32(1), 10, 1);
    assert_eq!(index.itype, Type::Int32);

    let index = Index::from(&tag, &RType::Int64(1), 10, 1);
    assert_eq!(index.itype, Type::Int64);

    let index = Index::from(&tag, &RType::String("test".to_string()), 10, 1);
    assert_eq!(index.itype, Type::String);

    // A byte string has a type of its own, number 7.
    let index = Index::from(&tag, &RType::Bin(vec![1, 2]), 10, 1);
    assert_eq!(index.itype, Type::Bin);

    let index = Index::from(&tag, &RType::StringArray(vec!["a".to_string()]), 10, 1);
    assert_eq!(index.itype, Type::StringArray);

    let index = Index::from(&tag, &RType::I18nstring("i18n".to_string()), 10, 1);
    assert_eq!(index.itype, Type::I18nstring);

    let index = Index::from(&tag, &RType::Int8Array(vec![1, 2]), 10, 2);
    assert_eq!(index.itype, Type::Int8);
    assert_eq!(index.count, 2);

    let index = Index::from(&tag, &RType::Int16Array(vec![1, 2]), 10, 2);
    assert_eq!(index.itype, Type::Int16);

    let index = Index::from(&tag, &RType::Int32Array(vec![1, 2]), 10, 2);
    assert_eq!(index.itype, Type::Int32);

    let index = Index::from(&tag, &RType::Int64Array(vec![1, 2]), 10, 2);
    assert_eq!(index.itype, Type::Int64);
}

#[test]
fn test_index_array_read() {
    let mut data = Vec::new();

    data.write_be(Tag::BuildTime.to_u32().unwrap()).unwrap();
    data.write_be(Type::Int32.to_u32()).unwrap();
    data.write_be(10_u32).unwrap();
    data.write_be(1_u32).unwrap();

    data.write_be(Tag::BuildHost.to_u32().unwrap()).unwrap();
    data.write_be(Type::String.to_u32()).unwrap();
    data.write_be(20_u32).unwrap();
    data.write_be(1_u32).unwrap();

    let mut cursor = ByteReader::new(data.as_slice());
    let indices: Vec<Index<Tag>> = IndexArray::read(&mut cursor, 2).unwrap();

    assert_eq!(indices.len(), 2);
    assert_eq!(indices[0].tag, Tag::BuildTime);
    assert_eq!(indices[0].itype, Type::Int32);
    assert_eq!(indices[0].offset, 10);
    assert_eq!(indices[0].count, 1);

    assert_eq!(indices[1].tag, Tag::BuildHost);
    assert_eq!(indices[1].itype, Type::String);
    assert_eq!(indices[1].offset, 20);
    assert_eq!(indices[1].count, 1);
}

#[test]
fn test_headerlead_read_write_smoke() {
    let lead = HeaderLead::from(7, 9);

    let mut data: Vec<u8> = Vec::new();
    lead.write(&mut data).unwrap();

    let mut cursor = ByteReader::new(data.as_slice());
    let lead2 = HeaderLead::read(&mut cursor).unwrap();

    assert_eq!(lead, lead2);
}

#[test]
fn header_lead_is_byte_exact_and_checks_its_magic() {
    let mut data: Vec<u8> = Vec::new();
    HeaderLead::from(0x0102, 0x0a0b0c0d).write(&mut data).unwrap();
    assert_eq!(
        data,
        vec![0x8e, 0xad, 0xe8, 0x01, 0, 0, 0, 0, 0, 0, 0x01, 0x02, 0x0a, 0x0b, 0x0c, 0x0d]
    );
    let mut wrong = data.clone();
    wrong[3] = 2;
    let err = HeaderLead::read(&mut ByteReader::new(wrong.as_slice())).unwrap_err();
    assert_eq!(err.kind(), ErrorKind::InvalidData);
    let err = HeaderLead::read(&mut ByteReader::new(&data[..15])).unwrap_err();
    assert_eq!(err.kind(), ErrorKind::Io);
    let err = HeaderLead::read(&mut ByteReader::new(&data[..2])).unwrap_err();
    assert_eq!(err.kind(), ErrorKind::Io);
    assert_eq!(HeaderLead::default(), HeaderLead::from(0, 0));
}

#[test]
fn type_numbers_are_the_canonical_ones() {
    assert_eq!(Type::Null.to_u32(), 0);
    assert_eq!(Type::Char.to_u32(), 1);
    assert_eq!(Type::Int8.to_u32(), 2);
    assert_eq!(Type::Int16.to_u32(), 3);
    assert_eq!(Type::Int32.to_u32(), 4);
    assert_eq!(Type::Int64.to_u32(), 5);
    assert_eq!(Type::String.to_u32(), 6);
    assert_eq!(Type::Bin.to_u32(), 7);
    assert_eq!(Type::StringArray.to_u32(), 8);
    assert_eq!(Type::I18nstring.to_u32(), 9);
    for id in 0..10u32 {
        assert_eq!(Type::from_u32(id).unwrap().to_u32(), id);
    }
    assert_eq!(Type::from_u32(10), None);
    assert_eq!(Type::default(), Type::Null);
}

#[test]
fn tag_numbers_round_trip_and_the_sentinel_has_none() {
    assert_eq!(Tag::Name.to_u32(), Some(1000));
    assert_eq!(Tag::BuildTime.to_u32(), Some(1006));
    assert_eq!(Tag::PayloadCompressor.to_u32(), Some(1125));
    assert_eq!(Tag::Modularitylabel.to_u32(), Some(5096));
    assert_eq!(Tag::Image.to_u32(), Some(61));
    assert_eq!(Tag::Other.to_u32(), None);
    assert_eq!(Tag::from_u32(1006), Some(Tag::BuildTime));
    assert_eq!(Tag::from_u32(4711), None);
    assert_eq!(Tag::from_u32(8888), None);
    assert_eq!(Tag::default(), Tag::Other);
    assert_eq!(SignatureTag::PayloadSize.to_u32(), Some(1007));
    assert_eq!(SignatureTag::from_u32(273), Some(SignatureTag::SHA256Header));
    assert_eq!(SignatureTag::from_u32(1009), None);
    assert_eq!(SignatureTag::Other.to_u32(), None);
    assert_eq!(SigTag::from_u32(62), Some(SigTag::HeaderSignatures));
    assert_eq!(SigTag::default(), SigTag::Other);
    let mut known = 0;
    for id in 0..6000u32 {
        if let Some(tag) = Tag::from_u32(id) {
            assert_eq!(tag.to_u32(), Some(id));
            assert!(tag.same(&tag));
            assert!(!tag.same(&Tag::other()));
            known += 1;
        }
    }
    assert_eq!(known, 265);
}

#[test]
fn index_with_an_unknown_tag_or_type_is_read_leniently() {
    let mut data = Vec::new();
    data.write_be(4711_u32).unwrap();
    data.write_be(77_u32).unwrap();
    data.write_be(5_u32).unwrap();
    data.write_be(6_u32).unwrap();
    let index: Index<Tag> = Index::read(&mut ByteReader::new(data.as_slice())).unwrap();
    assert_eq!(index, Index { tag: Tag::Other, itype: Type::Null, offset: 5, count: 6 });
    let short: Result<Index<Tag>, _> = Index::read(&mut ByteReader::new(&data[..15]));
    assert_eq!(short.unwrap_err().kind(), ErrorKind::Io);
}

#[test]
fn index_with_the_sentinel_is_not_written() {
    let mut data = vec![1u8, 2, 3];
    let index = Index { tag: Tag::Other, itype: Type::Int32, offset: 0, count: 1 };
    assert_eq!(data.write_index(index).unwrap_err().kind(), ErrorKind::InvalidInput);
    assert_eq!(data, vec![1u8, 2, 3]);
    let index = Index { tag: Tag::Name, itype: Type::Int32, offset: usize::MAX, count: 1 };
    assert_eq!(data.write_index(index).unwrap_err().kind(), ErrorKind::InvalidInput);
    let index = Index { tag: Tag::Name, itype: Type::StringArray, offset: 3, count: 2 };
    data.write_index(index).unwrap();
    assert_eq!(data, vec![1u8, 2, 3, 0, 0, 3, 0xe8, 0, 0, 0, 8, 0, 0, 0, 3, 0, 0, 0, 2]);
}

#[test]
fn index_table_is_sorted_by_offset_and_keeps_ties_in_order() {
    let mut data = Vec::new();
    for (tag, offset) in [(1004_u32, 9_u32), (1000, 0), (1005, 9), (1001, 4), (1002, 0)] {
        data.write_be(tag).unwrap();
        data.write_be(6_u32).unwrap();
        data.write_be(offset).unwrap();
        data.write_be(1_u32).unwrap();
    }
    let mut reader = ByteReader::new(data.as_slice());
    let table: Vec<Index<Tag>> = IndexArray::read(&mut reader, 5).unwrap();
    let tags: Vec<Tag> = table.iter().map(|i| i.tag).collect();
    assert_eq!(
        tags,
        vec![Tag::Name, Tag::Release, Tag::Version, Tag::Summary, Tag::Description]
    );
    let mut reader = ByteReader::new(data.as_slice());
    let short: Result<Vec<Index<Tag>>, _> = IndexArray::read(&mut reader, 6);
    assert_eq!(short.unwrap_err().kind(), ErrorKind::Io);
    let mut reader = ByteReader::new(data.as_slice());
    let huge: Result<Vec<Index<Tag>>, _> = IndexArray::read(&mut reader, usize::MAX);
    assert_eq!(huge.unwrap_err().kind(), ErrorKind::Io);
}

#[test]
fn store_with_build_time_is_byte_exact_and_reads_back() {
    let mut tags: Tags<Tag> = Tags::new();
    tags.insert(Tag::BuildTime, RType::Int32(0));
    let mut data: Vec<u8> = Vec::new();
    data.write_header(&tags).unwrap();
    assert_eq!(
        &data[..16],
        &[0x8E, 0xAD, 0xE8, 0x01, 0, 0, 0, 0, 0, 0, 0, 0x01, 0, 0, 0, 0x04]
    );
    assert_eq!(&data[16..32], &[0, 0, 0x03, 0xee, 0, 0, 0, 4, 0, 0, 0, 0, 0, 0, 0, 1]);
    assert_eq!(&data[32..], &[0, 0, 0, 0, 0, 0, 0, 0]);
    assert_eq!(data.len() % 8, 0);

    let mut reader = ByteReader::new(data.as_slice());
    let back: Tags<Tag> = Tags::read_store(&mut reader).unwrap();
    assert_eq!(back.len(), 1);
    assert_eq!(back.get_value(Tag::BuildTime), Some(RType::Int32(0)));
    assert_eq!(reader.position(), 36);
}

fn sample_values() -> Vec<(Tag, RType)> {
    vec![
        (Tag::Epoch, RType::Int8(7)),
        (Tag::Name, RType::String("hello".to_owned())),
        (Tag::Size, RType::Int64(0x0102_0304_0506_0708)),
        (Tag::FileModes, RType::Int16Array(vec![0o644, 0o755, 1])),
        (Tag::FileSizes, RType::Int32Array(vec![1, 0xffff_ffff])),
        (Tag::Longfilesizes, RType::Int64Array(vec![u64::MAX, 2, 3])),
        (Tag::Filecolors, RType::Int8Array(vec![9, 8, 7, 6])),
        (Tag::BaseNames, RType::StringArray(vec!["a".to_owned(), "".to_owned(), "c d".to_owned()])),
        (Tag::Summary, RType::I18nstring("gr\u{fc}\u{df}e".to_owned())),
        (Tag::Sigmd5, RType::Bin(vec![0, 1, 2, 0, 255])),
        (Tag::Icon, RType::Bin(Vec::new())),
        (Tag::Vendor, RType::Char('\u{1F600}')),
        (Tag::Url, RType::String(String::new())),
        (Tag::FileInodes, RType::Int16(0xbeef)),
        (Tag::Installprefix, RType::Null),
        (Tag::Arch, RType::Int32(0xdead_beef)),
        (Tag::DirNames, RType::StringArray(Vec::new())),
    ]
}

#[test]
fn store_round_trip_gives_back_every_value() {
    let mut tags: Tags<Tag> = Tags::new();
    for (tag, value) in sample_values() {
        tags.insert(tag, value);
    }
    let mut data: Vec<u8> = vec![0xEE; 8];
    data.write_header(&tags).unwrap();
    assert_eq!(data.len() % 8, 0);
    data.extend_from_slice(b"payload");

    let mut reader = ByteReader::new(&data[8..]);
    let back: Tags<Tag> = Tags::read_store(&mut reader).unwrap();
    assert_eq!(back.len(), sample_values().len());
    for (tag, value) in sample_values() {
        assert_eq!(back.get_value(tag), Some(value));
    }
    assert_eq!(back.get_value(Tag::License), None);
}

#[test]
fn a_null_behind_a_leading_text_ends_it_where_it_starts() {
    // A `Null` is recorded at offset zero, so in the order of offsets it
    // comes right behind the text that starts the data blob.
    let mut tags: Tags<Tag> = Tags::new();
    tags.insert(Tag::Name, RType::String("hello".to_owned()));
    tags.insert(Tag::Version, RType::String("1".to_owned()));
    tags.insert(Tag::Installprefix, RType::Null);
    let mut data: Vec<u8> = Vec::new();
    data.write_header(&tags).unwrap();
    let back: Tags<Tag> = Tags::read_store(&mut ByteReader::new(data.as_slice())).unwrap();
    assert_eq!(back.get_value(Tag::Name), Some(RType::String(String::new())));
    assert_eq!(back.get_value(Tag::Version), Some(RType::String("1".to_owned())));
    assert_eq!(back.get_value(Tag::Installprefix), Some(RType::Null));

    // With the `Null` in front the same store reads back as it was.
    let mut tags: Tags<Tag> = Tags::new();
    tags.insert(Tag::Installprefix, RType::Null);
    tags.insert(Tag::Name, RType::String("hello".to_owned()));
    let mut data: Vec<u8> = Vec::new();
    data.write_header(&tags).unwrap();
    let back: Tags<Tag> = Tags::read_store(&mut ByteReader::new(data.as_slice())).unwrap();
    assert_eq!(back.get_value(Tag::Name), Some(RType::String("hello".to_owned())));
}

#[test]
fn short_arrays_and_texts_with_nul_do_not_read_back() {
    let mut tags: Tags<Tag> = Tags::new();
    tags.insert(Tag::Epoch, RType::Int8(1));
    tags.insert(Tag::FileSizes, RType::Int32Array(vec![5]));
    tags.insert(Tag::Name, RType::String("a\0b".to_owned()));
    let mut data: Vec<u8> = Vec::new();
    data.write_header(&tags).unwrap();
    let back: Tags<Tag> = Tags::read_store(&mut ByteReader::new(data.as_slice())).unwrap();
    assert_eq!(back.get_value(Tag::FileSizes), Some(RType::Int32(5)));
    assert_eq!(back.get_value(Tag::Name), Some(RType::String("a".to_owned())));
}

#[test]
fn signature_store_round_trip() {
    let mut tags: Tags<SignatureTag> = Tags::new();
    tags.insert_payload_size(123456789012);
    tags.insert(SignatureTag::MD5, RType::Bin(vec![1; 16]));
    let mut data: Vec<u8> = Vec::new();
    data.write_header(&tags).unwrap();
    let mut reader = ByteReader::new(data.as_slice());
    let back: Tags<SignatureTag> = Tags::read_store(&mut reader).unwrap();
    assert_eq!(back.get_as_u64(SignatureTag::PayloadSize), 123456789012);
    assert_eq!(back.get_value(SignatureTag::MD5), Some(RType::Bin(vec![1; 16])));
}

#[test]
fn store_with_the_sentinel_is_not_written() {
    let mut tags: Tags<Tag> = Tags::new();
    tags.insert(Tag::Name, RType::String("n".to_owned()));
    tags.insert(Tag::Other, RType::Int8(1));
    let mut data: Vec<u8> = vec![5, 5];
    assert_eq!(data.write_header(&tags).unwrap_err().kind(), ErrorKind::InvalidInput);
    assert_eq!(data, vec![5, 5]);
}

#[test]
fn insert_replaces_and_get_value_finds() {
    let mut tags: Tags<Tag> = Tags::new();
    assert_eq!(tags.len(), 0);
    tags.insert(Tag::Name, RType::String("one".to_owned()))
        .insert(Tag::Version, RType::String("1".to_owned()))
        .insert(Tag::Name, RType::String("two".to_owned()));
    assert_eq!(tags.len(), 2);
    assert_eq!(tags.get_value(Tag::Name), Some(RType::String("two".to_owned())));
    assert_eq!(tags.get_value(Tag::Version), Some(RType::String("1".to_owned())));
    assert_eq!(tags.get_value(Tag::Release), None);
}

#[test]
fn typed_getters_and_inserters() {
    let mut tags: Tags<Tag> = Tags::new();
    tags.insert_name("pkg".to_owned())
        .insert_epoch(3)
        .insert_version("1.2".to_owned())
        .insert_group("g".to_owned())
        .insert_arch("noarch".to_owned())
        .insert_size(99)
        .insert_license("MIT".to_owned())
        .insert_summary("s".to_owned())
        .insert_description("d".to_owned())
        .insert_build_host("h".to_owned())
        .insert_payload_format("cpio".to_owned())
        .insert_payload_compressor("xz".to_owned())
        .insert_payload_flags("6".to_owned())
        .insert_source_rpm("src".to_owned())
        .insert_build_time(1_700_000_000)
        .insert_pre_install("a".to_owned())
        .insert_post_install("b".to_owned())
        .insert_pre_uninstall("c".to_owned())
        .insert_post_uninstall("e".to_owned());
    assert_eq!(tags.len(), 19);
    assert_eq!(tags.get_as_string(Tag::Name), "pkg");
    assert_eq!(tags.get_as_string(Tag::Epoch), "3");
    assert_eq!(tags.get_as_u8(Tag::Epoch), 3);
    assert_eq!(tags.get_as_u16(Tag::Epoch), 3);
    assert_eq!(tags.get_as_u32(Tag::Epoch), 3);
    assert_eq!(tags.get_as_i64(Tag::Epoch), 3);
    assert_eq!(tags.get_as_u64(Tag::Size), 99);
    assert_eq!(tags.get_as_u64(Tag::BuildTime), 1_700_000_000);
    assert_eq!(tags.get_value(Tag::PreIn), Some(RType::String("a".to_owned())));
    assert_eq!(tags.get_value(Tag::PostIn), Some(RType::String("b".to_owned())));
    assert_eq!(tags.get_value(Tag::PreUn), Some(RType::String("c".to_owned())));
    assert_eq!(tags.get_value(Tag::PostUn), Some(RType::String("e".to_owned())));
    assert_eq!(tags.get_as_string_or(Tag::License), "MIT");
    assert_eq!(tags.get_as_string_or(Tag::Url), "");
    assert_eq!(tags.get_as_u8_default(Tag::Epoch), 3);
    assert_eq!(tags.get_as_u8_default(Tag::Url), 0);
    assert!(tags.get_as_string_array_or(Tag::BaseNames).is_empty());
    assert!(tags.get_as_u64_array_or(Tag::FileSizes).is_empty());
    assert!(tags.get_as_u32_array_or(Tag::FileSizes).is_empty());
    assert!(tags.get_as_u16_array_or(Tag::FileModes).is_empty());
    tags.insert(Tag::FileModes, RType::Int8Array(vec![1, 2]));
    tags.insert(Tag::BaseNames, RType::StringArray(vec!["x".to_owned()]));
    assert_eq!(tags.get_as_u16_array_or(Tag::FileModes), vec![1, 2]);
    assert_eq!(tags.get_as_u32_array_or(Tag::FileModes), vec![1, 2]);
    assert_eq!(tags.get_as_u64_array_or(Tag::FileModes), vec![1, 2]);
    assert_eq!(tags.get_as_string_array_or(Tag::BaseNames), vec!["x".to_owned()]);
}

#[test]
fn reading_decodes_by_type_and_count() {
    let indexes = vec![
        Index { tag: Tag::Name, itype: Type::String, offset: 0, count: 1 },
        Index { tag: Tag::FileSizes, itype: Type::Int16, offset: 4, count: 2 },
        Index { tag: Tag::Epoch, itype: Type::Int32, offset: 8, count: 1 },
        Index { tag: Tag::Vendor, itype: Type::Char, offset: 12, count: 1 },
        Index { tag: Tag::BaseNames, itype: Type::StringArray, offset: 16, count: 2 },
        Index { tag: Tag::Icon, itype: Type::Bin, offset: 20, count: 3 },
        Index { tag: Tag::Url, itype: Type::I18nstring, offset: 23, count: 1 },
    ];
    let data: Vec<u8> = vec![
        b'a', b'b', 0, 0, // "ab"
        0, 1, 0, 2, // two 16-bit numbers
        0, 0, 1, 0, // 256
        0, 0, 0, b'z', // 'z'
        b'x', 0, b'y', 0, // "x", "y"
        7, 8, 9, // three bytes
        b'q', 0, // "q"
    ];
    let tags = Tags::tags_from_raw(&indexes, &data).unwrap();
    assert_eq!(tags.get_value(Tag::Name), Some(RType::String("ab".to_owned())));
    assert_eq!(tags.get_value(Tag::FileSizes), Some(RType::Int16Array(vec![1, 2])));
    assert_eq!(tags.get_value(Tag::Epoch), Some(RType::Int32(256)));
    assert_eq!(tags.get_value(Tag::Vendor), Some(RType::Char('z')));
    assert_eq!(
        tags.get_value(Tag::BaseNames),
        Some(RType::StringArray(vec!["x".to_owned(), "y".to_owned()]))
    );
    assert_eq!(tags.get_value(Tag::Icon), Some(RType::Bin(vec![7, 8, 9])));
    assert_eq!(tags.get_value(Tag::Url), Some(RType::I18nstring("q".to_owned())));
}

#[test]
fn reading_beyond_the_blob_is_invalid_data() {
    let data: Vec<u8> = vec![1, 2, 3, 4];
    for index in [
        Index { tag: Tag::Name, itype: Type::Int32, offset: 1, count: 1 },
        Index { tag: Tag::Name, itype: Type::Int32, offset: 0, count: 2 },
        Index { tag: Tag::Name, itype: Type::Int64, offset: 0, count: 1 },
        Index { tag: Tag::Name, itype: Type::Bin, offset: 2, count: 3 },
        Index { tag: Tag::Name, itype: Type::String, offset: 5, count: 1 },
        Index { tag: Tag::Name, itype: Type::Char, offset: usize::MAX, count: 1 },
        Index { tag: Tag::Name, itype: Type::Int16, offset: 0, count: usize::MAX },
    ] {
        let err = Tags::tags_from_raw(&[index], &data).err().unwrap();
        assert_eq!(err.kind(), ErrorKind::InvalidData);
    }
    let ok = Tags::tags_from_raw(
        &[Index { tag: Tag::Name, itype: Type::Null, offset: 99, count: 1 }],
        &data,
    )
    .unwrap();
    assert_eq!(ok.get_value(Tag::Name), Some(RType::Null));
}

#[test]
fn of_two_entries_with_one_tag_the_later_stands() {
    let indexes = vec![
        Index { tag: Tag::Other, itype: Type::Int8, offset: 0, count: 1 },
        Index { tag: Tag::Other, itype: Type::Int8, offset: 1, count: 1 },
    ];
    let tags = Tags::tags_from_raw(&indexes, &[5, 6]).unwrap();
    assert_eq!(tags.len(), 1);
    assert_eq!(tags.get_value(Tag::Other), Some(RType::Int8(6)));
}

#[test]
fn an_invalid_character_number_reads_as_nul() {
    let indexes = vec![Index { tag: Tag::Name, itype: Type::Char, offset: 0, count: 1 }];
    let tags = Tags::tags_from_raw(&indexes, &[0, 0, 0xd8, 0]).unwrap();
    assert_eq!(tags.get_value(Tag::Name), Some(RType::Char('\0')));
}

#[test]
fn short_store_is_an_io_error() {
    let mut tags: Tags<Tag> = Tags::new();
    tags.insert(Tag::Name, RType::String("abc".to_owned()));
    let mut data: Vec<u8> = Vec::new();
    data.write_header(&tags).unwrap();
    for cut in [0, 10, 20, 33] {
        let mut reader = ByteReader::new(&data[..cut]);
        let r: Result<Tags<Tag>, _> = Tags::read_store(&mut reader);
        assert_eq!(r.err().unwrap().kind(), ErrorKind::Io);
    }
}

#[test]
fn values_turn_into_text() {
    assert_eq!(RType::Bin(vec![1, 0xff, 0, 0x10]).as_string(), Some("[1, ff, 0, 10]".to_owned()));
    assert_eq!(RType::Bin(Vec::new()).as_string(), Some("[]".to_owned()));
    assert_eq!(RType::Int64(u64::MAX).as_string(), Some("18446744073709551615".to_owned()));
    assert_eq!(RType::Int8(0).as_string(), Some("0".to_owned()));
    assert_eq!(RType::StringArray(Vec::new()).as_string(), Some(String::new()));
    assert_eq!(RType::StringArray(vec!["solo".to_owned()]).as_string(), Some("solo".to_owned()));
    assert_eq!(
        RType::StringArray(vec!["".to_owned(), "".to_owned()]).as_string(),
        Some(",".to_owned())
    );
    assert_eq!(RType::Char('\u{e9}').as_string(), Some("\u{e9}".to_owned()));
}

#[test]
fn widening_keeps_the_numbers() {
    assert_eq!(RType::Int8(255).as_u64(), Some(255));
    assert_eq!(RType::Int16(65535).as_u32(), Some(65535));
    assert_eq!(RType::Int32(u32::MAX).as_i64(), Some(4294967295));
    assert_eq!(RType::Int32(u32::MAX).as_u64(), Some(4294967295));
    assert_eq!(RType::Int64(u64::MAX).as_u64(), Some(u64::MAX));
    assert_eq!(RType::Int8Array(vec![0, 255]).as_u64_array(), Some(vec![0, 255]));
    assert_eq!(RType::Int16Array(vec![65535]).as_u32_array(), Some(vec![65535]));
    assert_eq!(RType::Int32Array(vec![u32::MAX]).as_u64_array(), Some(vec![4294967295]));
    assert_eq!(RType::Int64(1).as_u8(), None);
    assert_eq!(RType::Int64(1).as_u16(), None);
    assert_eq!(RType::Int64Array(vec![1]).as_u16_array(), None);
    assert_eq!(RType::Char('1').as_u64(), None);
}

#[derive(Debug, Default, PartialEq)]
struct Length(usize);

impl From<RType> for Length {
    fn from(value: RType) -> Self {
        match value {
            RType::String(s) => Length(s.len()),
            _ => Length(0),
        }
    }
}

#[test]
fn get_converts_what_is_there_and_defaults_otherwise() {
    let mut tags: Tags<Tag> = Tags::new();
    tags.insert(Tag::Name, RType::String("package".to_owned()));
    let there: Length = tags.get(Tag::Name);
    assert_eq!(there, Length(7));
    let missing: Length = tags.get(Tag::Version);
    assert_eq!(missing, Length::default());
}

#[test]
fn insert_keeps_the_place_of_a_tag_that_is_there() {
    let mut tags: Tags<Tag> = Tags::new();
    tags.insert(Tag::Name, RType::String("a".to_owned()));
    tags.insert(Tag::Version, RType::String("1".to_owned()));
    tags.insert(Tag::Name, RType::String("b".to_owned()));
    assert_eq!(tags.len(), 2);
    assert_eq!(tags.get_value(Tag::Name), Some(RType::String("b".to_owned())));

    let mut first = Vec::new();
    first.write_header(&tags).unwrap();

    let mut fresh: Tags<Tag> = Tags::new();
    fresh.insert(Tag::Name, RType::String("b".to_owned()));
    fresh.insert(Tag::Version, RType::String("1".to_owned()));
    let mut second = Vec::new();
    second.write_header(&fresh).unwrap();
    assert_eq!(first, second);
}
