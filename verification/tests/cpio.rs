use rpm_utils::error::ErrorKind;
use rpm_utils::payload::cpio::{MAX_CPIO_ENTRY_SIZE, MAX_NAME_SIZE};
use rpm_utils::payload::{
    check_within, extract_entries, extract_entry, io_copy_exact, is_safe_path, major, minor,
    ownership_to_set, parent_decision, read_entries, read_entry, CpioBuilder, CpioEntries,
    CpioFiles, CpioRead, CpioWriter, ExtractStep, FileEntry, FileMeta,
};
use rpm_utils::reader::ByteReader;

fn write_hex(data: &mut Vec<u8>, val: u32) {
    data.extend_from_slice(format!("{:08x}", val).as_bytes());
}

fn entry(name: &str, nlink: u32, file_size: u32) -> FileEntry {
    FileEntry {
        name: name.to_owned(),
        ino: 7,
        mode: 0o100644,
        uid: 1000,
        gid: 100,
        nlink,
        mtime: 1_600_000_000,
        file_size,
        dev_major: 8,
        dev_minor: 1,
        rdev_major: 0,
        rdev_minor: 0,
    }
}

#[test]
fn test_cpio_write_entry() {
    let mut writer = Vec::new();
    writer.write_cpio_entry(FileEntry::default()).unwrap();
    let mut reader = ByteReader::new(writer.as_slice());
    let entry = FileEntry::read(&mut reader).unwrap();
    assert_eq!(entry, FileEntry::default());
}

// Buffer size limit security tests
#[test]
fn test_cpio_rejects_oversized_file() {
    // Create CPIO data with file_size exceeding MAX_CPIO_ENTRY_SIZE
    let mut data = Vec::new();

    // Write magic
    data.extend_from_slice(b"070701");

    write_hex(&mut data, 0); // ino
    write_hex(&mut data, 0); // mode
    write_hex(&mut data, 0); // uid
    write_hex(&mut data, 0); // gid
    write_hex(&mut data, 0); // nlink
    write_hex(&mut data, 0); // mtime
    write_hex(&mut data, MAX_CPIO_ENTRY_SIZE + 1); // file_size - OVERSIZED!

    let mut reader = ByteReader::new(data.as_slice());
    let result = FileEntry::read(&mut reader);

    assert!(result.is_err(), "Should reject oversized file");
    let err = result.unwrap_err();
    assert_eq!(err.kind(), ErrorKind::InvalidData);
    assert!(err.to_string().contains("file size"));
    assert!(err.to_string().contains("exceeds maximum"));
}

#[test]
fn test_cpio_rejects_oversized_name() {
    // Create CPIO data with name_size exceeding MAX_NAME_SIZE
    let mut data = Vec::new();

    // Write magic
    data.extend_from_slice(b"070701");

    write_hex(&mut data, 0); // ino
    write_hex(&mut data, 0); // mode
    write_hex(&mut data, 0); // uid
    write_hex(&mut data, 0); // gid
    write_hex(&mut data, 0); // nlink
    write_hex(&mut data, 0); // mtime
    write_hex(&mut data, 100); // file_size - reasonable
    write_hex(&mut data, 0); // dev_major
    write_hex(&mut data, 0); // dev_minor
    write_hex(&mut data, 0); // rdev_major
    write_hex(&mut data, 0); // rdev_minor
    write_hex(&mut data, MAX_NAME_SIZE + 1); // name_size - OVERSIZED!

    let mut reader = ByteReader::new(data.as_slice());
    let result = FileEntry::read(&mut reader);

    assert!(result.is_err(), "Should reject oversized name");
    let err = result.unwrap_err();
    assert_eq!(err.kind(), ErrorKind::InvalidData);
    assert!(err.to_string().contains("name size"));
    assert!(err.to_string().contains("exceeds maximum"));
}

#[test]
fn test_cpio_accepts_size_at_limits() {
    // Test that sizes exactly at the limits are accepted
    // (This test validates the boundary condition)
    let mut data = Vec::new();

    data.extend_from_slice(b"070701");

    write_hex(&mut data, 0); // ino
    write_hex(&mut data, 0); // mode
    write_hex(&mut data, 0); // uid
    write_hex(&mut data, 0); // gid
    write_hex(&mut data, 0); // nlink
    write_hex(&mut data, 0); // mtime
    write_hex(&mut data, MAX_CPIO_ENTRY_SIZE); // file_size - at limit
    write_hex(&mut data, 0); // dev_major
    write_hex(&mut data, 0); // dev_minor
    write_hex(&mut data, 0); // rdev_major
    write_hex(&mut data, 0); // rdev_minor
    write_hex(&mut data, MAX_NAME_SIZE); // name_size - at limit
    data.extend_from_slice(&[0u8; 8]); // checksum

    // Add name data (MAX_NAME_SIZE bytes)
    data.extend_from_slice(&vec![b'a'; MAX_NAME_SIZE as usize]);

    let mut reader = ByteReader::new(data.as_slice());
    let result = FileEntry::read(&mut reader);

    // Should not fail with size limit error
    if let Err(e) = result {
        assert_ne!(
            e.kind(),
            ErrorKind::InvalidData,
            "Should not reject size at limit: {}",
            e.to_string()
        );
    }
}

// Path traversal security tests
#[test]
fn test_is_safe_path_rejects_parent_dir_components() {
    // Reject paths with ".." components
    assert!(!is_safe_path("../../etc/passwd"));
    assert!(!is_safe_path("foo/../../../etc/passwd"));
    assert!(!is_safe_path("foo/bar/../../../etc/passwd"));
    assert!(!is_safe_path("../etc/passwd"));
    assert!(!is_safe_path("foo/.."));
}

#[test]
fn test_is_safe_path_rejects_absolute_paths() {
    // Reject absolute paths
    assert!(!is_safe_path("/etc/passwd"));
    assert!(!is_safe_path("/tmp/test"));
}

#[test]
fn test_is_safe_path_accepts_valid_relative_paths() {
    // Accept valid relative paths
    assert!(is_safe_path("file.txt"));
    assert!(is_safe_path("dir/file.txt"));
    assert!(is_safe_path("dir/subdir/file.txt"));
    assert!(is_safe_path("./file.txt"));
    assert!(is_safe_path("./dir/file.txt"));
}

#[test]
fn test_is_safe_path_edge_cases() {
    // Edge cases
    assert!(is_safe_path("."));
    assert!(is_safe_path(""));

    // Paths that look suspicious but are actually safe
    assert!(is_safe_path("file..txt")); // ".." in filename
    assert!(is_safe_path("dir/file..txt"));
}

#[test]
fn is_safe_path_rejects_a_leading_backslash() {
    assert!(!is_safe_path("\\etc\\passwd"));
    assert!(!is_safe_path(".."));
    assert!(is_safe_path("..."));
    assert!(is_safe_path("a/..b/c"));
    assert!(!is_safe_path("a//../b"));
}

#[test]
fn entry_at_the_limits_with_padding_is_read() {
    let name: String = vec!['n'; (MAX_NAME_SIZE - 1) as usize].into_iter().collect();
    let written = entry(&name, 1, MAX_CPIO_ENTRY_SIZE);
    let mut data = Vec::new();
    written.write(&mut data).unwrap();
    assert_eq!(data.len() % 4, 0);
    let mut reader = ByteReader::new(data.as_slice());
    let read = FileEntry::read(&mut reader).unwrap();
    assert_eq!(read, written);
    assert_eq!(reader.position(), data.len());
}

#[test]
fn entry_round_trip_keeps_every_field() {
    let written = FileEntry {
        name: "usr/share/doc/\u{e9}t\u{e9}.txt".to_owned(),
        ino: 0xdead_beef,
        mode: 0o100755,
        uid: 0xffff_ffff,
        gid: 0,
        nlink: 3,
        mtime: 1,
        file_size: 12345,
        dev_major: 0x7f,
        dev_minor: 0xff,
        rdev_major: 2,
        rdev_minor: 9,
    };
    let mut data = vec![0xAAu8];
    written.write(&mut data).unwrap();
    data.extend_from_slice(b"rest");
    let mut reader = ByteReader::new(&data[1..]);
    let read = FileEntry::read(&mut reader).unwrap();
    assert_eq!(read, written);
    assert_eq!(reader.available(), 4);
}

#[test]
fn written_header_is_byte_exact() {
    let e = FileEntry {
        name: "a".to_owned(),
        ino: 1,
        mode: 2,
        uid: 3,
        gid: 4,
        nlink: 5,
        mtime: 6,
        file_size: 7,
        dev_major: 8,
        dev_minor: 9,
        rdev_major: 10,
        rdev_minor: 0xabcdef,
    };
    let mut data = Vec::new();
    e.write(&mut data).unwrap();
    let mut expected = Vec::new();
    expected.extend_from_slice(
        b"070701000000010000000200000003000000040000000500000006000000070000000800000009\
0000000a00abcdef0000000200000000",
    );
    expected.extend_from_slice(b"a\0");
    assert_eq!(data, expected);
    assert_eq!(data.len(), 112);
}

#[test]
fn read_rejects_bad_magic_and_bad_hex() {
    let mut data = Vec::new();
    FileEntry::default().write(&mut data).unwrap();
    let mut wrong_magic = data.clone();
    wrong_magic[5] = b'2';
    let err = FileEntry::read(&mut ByteReader::new(wrong_magic.as_slice())).unwrap_err();
    assert_eq!(err.kind(), ErrorKind::InvalidData);

    let mut wrong_hex = data.clone();
    wrong_hex[10] = b'g';
    let err = FileEntry::read(&mut ByteReader::new(wrong_hex.as_slice())).unwrap_err();
    assert_eq!(err.kind(), ErrorKind::InvalidData);

    let err = FileEntry::read(&mut ByteReader::new(&data[..3])).unwrap_err();
    assert_eq!(err.kind(), ErrorKind::Io);
    let err = FileEntry::read(&mut ByteReader::new(&data[..50])).unwrap_err();
    assert_eq!(err.kind(), ErrorKind::InvalidData);
    let err = FileEntry::read(&mut ByteReader::new(&data[..105])).unwrap_err();
    assert_eq!(err.kind(), ErrorKind::Io);
    let err = FileEntry::read(&mut ByteReader::new(&data[..115])).unwrap_err();
    assert_eq!(err.kind(), ErrorKind::Io);
}

#[test]
fn read_rejects_empty_and_ill_formed_names() {
    let mut data = Vec::new();
    data.extend_from_slice(b"070701");
    for _ in 0..11 {
        write_hex(&mut data, 0);
    }
    write_hex(&mut data, 0); // name_size of zero
    data.extend_from_slice(&[0u8; 8]);
    data.extend_from_slice(&[0u8; 8]);
    let err = FileEntry::read(&mut ByteReader::new(data.as_slice())).unwrap_err();
    assert_eq!(err.kind(), ErrorKind::InvalidData);

    let mut data = Vec::new();
    data.extend_from_slice(b"070701");
    for _ in 0..11 {
        write_hex(&mut data, 0);
    }
    write_hex(&mut data, 3);
    data.extend_from_slice(&[0u8; 8]);
    data.extend_from_slice(&[0xff, 0xfe, 0]);
    data.extend_from_slice(&[0u8; 3]);
    let err = FileEntry::read(&mut ByteReader::new(data.as_slice())).unwrap_err();
    assert_eq!(err.kind(), ErrorKind::InvalidData);
}

#[test]
fn upper_case_hex_is_read() {
    let mut data = Vec::new();
    data.extend_from_slice(b"070701");
    data.extend_from_slice(b"0000ABCD");
    for _ in 0..10 {
        write_hex(&mut data, 0);
    }
    write_hex(&mut data, 2);
    data.extend_from_slice(&[0u8; 8]);
    data.extend_from_slice(b"x\0");
    let e = FileEntry::read(&mut ByteReader::new(data.as_slice())).unwrap();
    assert_eq!(e.ino, 0xabcd);
    assert_eq!(e.name, "x");
}

#[test]
fn device_numbers_are_split() {
    assert_eq!(major(0x0801), 8);
    assert_eq!(minor(0x0801), 1);
    assert_eq!(major(0xffff_ffff), 0x7f);
    assert_eq!(minor(0xffff_ffff), 0xff);
    assert_eq!(major(0x8000), 0);
}

#[test]
fn entry_from_metadata_truncates_and_splits() {
    let meta = FileMeta {
        ino: 0x1_0000_0002,
        mode: 0o100600,
        uid: 5,
        gid: 6,
        nlink: 1,
        mtime: 1_700_000_000,
        size: 0x2_0000_0005,
        dev: 0x0803,
        rdev: 0x1_0000_0904,
    };
    let e = FileEntry::from_metadata("f".to_owned(), &meta);
    assert_eq!(e.name, "f");
    assert_eq!(e.ino, 2);
    assert_eq!(e.mode, 0o100600);
    assert_eq!(e.uid, 5);
    assert_eq!(e.gid, 6);
    assert_eq!(e.nlink, 1);
    assert_eq!(e.mtime, 1_700_000_000);
    assert_eq!(e.file_size, 5);
    assert_eq!(e.dev_major, 8);
    assert_eq!(e.dev_minor, 3);
    assert_eq!(e.rdev_major, 9);
    assert_eq!(e.rdev_minor, 4);
}

#[test]
fn trailer_only_archive() {
    let archive = CpioBuilder::new(Vec::new()).build().unwrap();
    let mut expected = Vec::new();
    FileEntry::default().write(&mut expected).unwrap();
    assert_eq!(archive, expected);
    assert_eq!(archive.len(), 124);
    assert_eq!(&archive[110..121], b"TRAILER!!!\0");
    assert_eq!(&archive[121..], &[0u8; 3]);
    let mut reader = ByteReader::new(archive.as_slice());
    let entries = read_entries(&mut reader).unwrap();
    assert!(entries.is_empty());
}

#[test]
fn single_file_archive_round_trip() {
    let mut record = entry("h.txt", 1, 5);
    record.mtime = 1_234_567_890;
    let archive = CpioBuilder::new(Vec::new())
        .add_record(record.clone(), b"hello".to_vec())
        .build()
        .unwrap();
    assert_eq!(archive.len() % 4, 0);

    let mut reader = ByteReader::new(archive.as_slice());
    let entries = read_entries(&mut reader).unwrap();
    assert_eq!(entries, vec![record.clone()]);

    let mut reader = ByteReader::new(archive.as_slice());
    let plan = extract_entries(&mut reader).unwrap();
    assert_eq!(plan.len(), 1);
    assert_eq!(plan[0].entry, record);
    assert_eq!(plan[0].entry.mtime, 1_234_567_890);
    match plan[0].step {
        ExtractStep::File { content } => assert_eq!(content, b"hello"),
        _ => panic!("a file was expected"),
    }
}

#[test]
fn builder_keeps_what_the_sink_held() {
    let archive = CpioBuilder::new(b"head".to_vec())
        .add_record(entry("a", 1, 1), b"x".to_vec())
        .add_record(entry("b", 1, 0), Vec::new())
        .build()
        .unwrap();
    assert_eq!(&archive[..4], b"head");
    let mut reader = ByteReader::new(&archive[4..]);
    let entries = read_entries(&mut reader).unwrap();
    assert_eq!(entries.len(), 2);
    assert_eq!(entries[0].name, "a");
    assert_eq!(entries[1].name, "b");
}

#[test]
fn traversal_is_rejected_before_anything_is_planned() {
    let archive = CpioBuilder::new(Vec::new())
        .add_record(entry("../evil", 1, 4), b"evil".to_vec())
        .build()
        .unwrap();
    let mut reader = ByteReader::new(archive.as_slice());
    let stopped = extract_entries(&mut reader).err().unwrap();
    assert_eq!(stopped.error.kind(), ErrorKind::InvalidInput);
    assert!(stopped.steps.is_empty());

    let mut reader = ByteReader::new(archive.as_slice());
    let err = extract_entry(&mut reader).err().unwrap();
    assert_eq!(err.kind(), ErrorKind::InvalidInput);
}

#[test]
fn unsafe_names_are_invalid_input() {
    for name in ["../../etc/passwd", "/etc/passwd", "foo/bar/../../../etc/passwd"] {
        let archive = CpioBuilder::new(Vec::new())
            .add_record(entry(name, 1, 0), Vec::new())
            .build()
            .unwrap();
        let mut reader = ByteReader::new(archive.as_slice());
        let stopped = extract_entries(&mut reader).err().unwrap();
        assert_eq!(stopped.error.kind(), ErrorKind::InvalidInput);
        assert!(stopped.steps.is_empty());
    }
}

#[test]
fn a_later_unsafe_name_leaves_what_came_before() {
    let archive = CpioBuilder::new(Vec::new())
        .add_record(entry("good", 1, 2), b"ok".to_vec())
        .add_record(entry("dir/../../bad", 1, 0), Vec::new())
        .add_record(entry("after", 1, 1), b"x".to_vec())
        .build()
        .unwrap();
    let mut reader = ByteReader::new(archive.as_slice());
    let stopped = extract_entries(&mut reader).err().unwrap();
    assert_eq!(stopped.error.kind(), ErrorKind::InvalidInput);
    assert_eq!(stopped.steps.len(), 1);
    assert_eq!(stopped.steps[0].entry.name, "good");
    match stopped.steps[0].step {
        ExtractStep::File { content } => assert_eq!(content, b"ok"),
        _ => panic!("a file was expected"),
    }
}

#[test]
fn member_by_member_the_first_error_ends_the_extraction() {
    let archive = CpioBuilder::new(Vec::new())
        .add_record(entry("a.txt", 1, 1), b"A".to_vec())
        .add_record(entry("../b", 1, 1), b"B".to_vec())
        .build()
        .unwrap();
    let mut reader = ByteReader::new(archive.as_slice());
    let first = extract_entry(&mut reader).unwrap();
    assert_eq!(first.entry.name, "a.txt");
    match first.step {
        ExtractStep::File { content } => assert_eq!(content, b"A"),
        _ => panic!("a file was expected"),
    }
    let second = extract_entry(&mut reader).err().unwrap();
    assert_eq!(second.kind(), ErrorKind::InvalidInput);

    let mut reader = ByteReader::new(archive.as_slice());
    let stopped = extract_entries(&mut reader).err().unwrap();
    assert_eq!(stopped.error.kind(), ErrorKind::InvalidInput);
    assert_eq!(stopped.steps.len(), 1);
    assert_eq!(stopped.steps[0].entry.name, "a.txt");
}

#[test]
fn directories_and_files_are_told_apart() {
    let archive = CpioBuilder::new(Vec::new())
        .add_record(entry("dir", 2, 0), Vec::new())
        .add_record(entry("dir/file", 1, 3), b"abc".to_vec())
        .build()
        .unwrap();
    let mut reader = ByteReader::new(archive.as_slice());
    let plan = extract_entries(&mut reader).unwrap();
    assert_eq!(plan.len(), 2);
    assert!(matches!(plan[0].step, ExtractStep::Directory));
    match plan[1].step {
        ExtractStep::File { content } => assert_eq!(content, b"abc"),
        _ => panic!("a file was expected"),
    }
    let mut reader = ByteReader::new(archive.as_slice());
    let first = extract_entry(&mut reader).unwrap();
    assert_eq!(first.entry.name, "dir");
}

#[test]
fn extraction_stops_at_the_trailer() {
    let mut archive = CpioBuilder::new(Vec::new())
        .add_record(entry("one", 1, 1), b"1".to_vec())
        .build()
        .unwrap();
    archive.extend_from_slice(b"garbage after the trailer");
    let mut reader = ByteReader::new(archive.as_slice());
    let plan = extract_entries(&mut reader).unwrap();
    assert_eq!(plan.len(), 1);
    let mut reader = ByteReader::new(archive.as_slice());
    let _ = extract_entry(&mut reader).unwrap();
    let last = extract_entry(&mut reader).unwrap();
    assert!(matches!(last.step, ExtractStep::Done));
}

#[test]
fn truncated_payload_is_an_io_error() {
    let archive = CpioBuilder::new(Vec::new())
        .add_record(entry("big", 1, 100), b"short".to_vec())
        .build()
        .unwrap();
    // The header promises 100 bytes; far fewer follow before the archive ends.
    let cut = &archive[..120];
    let mut reader = ByteReader::new(cut);
    let stopped = extract_entries(&mut reader).err().unwrap();
    assert_eq!(stopped.error.kind(), ErrorKind::Io);
    assert!(stopped.steps.is_empty());
}

#[test]
fn missing_parent_is_not_found_unless_creation_is_allowed() {
    assert_eq!(parent_decision(true, false).unwrap(), false);
    assert_eq!(parent_decision(true, true).unwrap(), false);
    assert_eq!(parent_decision(false, true).unwrap(), true);
    assert_eq!(parent_decision(false, false).unwrap_err().kind(), ErrorKind::NotFound);
}

#[test]
fn a_path_that_a_link_leads_out_of_the_root_is_rejected() {
    let root = vec!["/".to_owned(), "srv".to_owned(), "out".to_owned()];
    let inside = vec!["/".to_owned(), "srv".to_owned(), "out".to_owned(), "a".to_owned()];
    let outside = vec!["/".to_owned(), "etc".to_owned(), "a".to_owned()];
    let sibling = vec!["/".to_owned(), "srv".to_owned(), "outer".to_owned(), "a".to_owned()];
    let parent = vec!["/".to_owned(), "srv".to_owned()];
    assert!(check_within(&root, &inside).is_ok());
    assert!(check_within(&root, &root).is_ok());
    assert_eq!(check_within(&root, &outside).unwrap_err().kind(), ErrorKind::InvalidInput);
    assert_eq!(check_within(&root, &sibling).unwrap_err().kind(), ErrorKind::InvalidInput);
    assert_eq!(check_within(&root, &parent).unwrap_err().kind(), ErrorKind::InvalidInput);
}

#[test]
fn ownership_is_set_only_on_request() {
    let e = entry("f", 1, 0);
    assert!(ownership_to_set(&e, false).is_none());
    let o = ownership_to_set(&e, true).unwrap();
    assert_eq!(o.mode, 0o100644);
    assert_eq!(o.uid, 1000);
    assert_eq!(o.gid, 100);
}

#[test]
fn copy_exact_copies_across_chunks() {
    let data: Vec<u8> = (0..20_000u32).map(|i| (i % 251) as u8).collect();
    let mut reader = ByteReader::new(data.as_slice());
    let mut out = vec![9u8];
    let copied = io_copy_exact(&mut reader, &mut out, 16_385).unwrap();
    assert_eq!(copied, 16_385);
    assert_eq!(out.len(), 16_386);
    assert_eq!(&out[1..], &data[..16_385]);
    assert_eq!(reader.position(), 16_385);

    let mut out = Vec::new();
    assert_eq!(io_copy_exact(&mut reader, &mut out, 8192).unwrap_err().kind(), ErrorKind::Io);
    assert!(out.is_empty());
    assert_eq!(reader.position(), 16_385);
    assert_eq!(io_copy_exact(&mut reader, &mut out, 0).unwrap(), 0);
    assert_eq!(io_copy_exact(&mut reader, &mut out, 3615).unwrap(), 3615);
    assert_eq!(reader.available(), 0);
}

#[test]
fn read_entry_hands_out_the_payload_and_skips_the_padding() {
    let archive = CpioBuilder::new(Vec::new())
        .add_record(entry("five", 1, 5), b"hello".to_vec())
        .add_record(entry("four", 1, 4), b"abcd".to_vec())
        .build()
        .unwrap();
    let mut reader = ByteReader::new(archive.as_slice());
    let mut out = Vec::new();
    let (first, n) = read_entry(&mut reader, &mut out).unwrap();
    assert_eq!(first.name, "five");
    assert_eq!(n, 5);
    assert_eq!(out, b"hello");
    assert_eq!(reader.position() % 4, 0);
    let (second, n) = read_entry(&mut reader, &mut out).unwrap();
    assert_eq!(second.name, "four");
    assert_eq!(n, 4);
    assert_eq!(out, b"helloabcd");
}

#[test]
fn reader_and_writer_traits_agree() {
    let mut sink: Vec<u8> = Vec::new();
    let mut payload = ByteReader::new(b"xyz");
    sink.write_cpio_record(entry("t", 1, 3), &mut payload).unwrap();
    sink.cpio_close().unwrap();
    assert_eq!(sink.len() % 4, 0);

    let mut source = ByteReader::new(sink.as_slice());
    let e = source.read_cpio_entry().unwrap();
    assert_eq!(e.name, "t");
    let mut out = Vec::new();
    source.read_cpio_entry_payload(&e, &mut out).unwrap();
    assert_eq!(out, b"xyz");
    let trailer = source.read_cpio_entry().unwrap();
    assert_eq!(trailer, FileEntry::default());
    assert!(trailer.is_trailer());
}

#[test]
fn payload_is_padded_to_four_bytes() {
    for len in 0..9usize {
        let mut sink: Vec<u8> = Vec::new();
        let data = vec![1u8; len];
        let mut reader = ByteReader::new(data.as_slice());
        sink.write_cpio_entry_payload(&mut reader).unwrap();
        assert_eq!(sink.len() % 4, 0);
        assert!(sink.len() >= len && sink.len() < len + 4);
        assert_eq!(&sink[..len], data.as_slice());
        assert!(sink[len..].iter().all(|b| *b == 0));
    }
}

#[test]
fn entries_and_files_walk_the_archive() {
    let archive = CpioBuilder::new(Vec::new())
        .add_record(entry("one", 1, 3), b"111".to_vec())
        .add_record(entry("two", 1, 2), b"22".to_vec())
        .build()
        .unwrap();
    let mut entries = CpioEntries::new(ByteReader::new(archive.as_slice()));
    assert_eq!(entries.next().unwrap().name, "one");
    assert_eq!(entries.next().unwrap().name, "two");
    assert!(entries.next().is_none());

    let mut files = CpioFiles::new(ByteReader::new(archive.as_slice()));
    let (e, bytes) = files.next().unwrap();
    assert_eq!(e.name, "one");
    assert_eq!(bytes, b"111");
    let (e, bytes) = files.next().unwrap();
    assert_eq!(e.name, "two");
    assert_eq!(bytes, b"22");
    assert!(files.next().is_none());
}

#[test]
fn records_are_written_in_order_and_closed() {
    let mut sink = b"head".to_vec();
    sink.write_cpio_records(vec![
        (entry("one", 1, 3), b"111".to_vec()),
        (entry("two", 1, 2), b"22".to_vec()),
    ])
    .unwrap();
    assert_eq!(&sink[..4], b"head");
    let archive = CpioBuilder::new(b"head".to_vec())
        .add_record(entry("one", 1, 3), b"111".to_vec())
        .add_record(entry("two", 1, 2), b"22".to_vec())
        .build()
        .unwrap();
    assert_eq!(sink, archive);

    let mut reader = ByteReader::new(&sink[4..]);
    let entries = read_entries(&mut reader).unwrap();
    assert_eq!(entries.len(), 2);
    assert_eq!(entries[0].name, "one");
    assert_eq!(entries[0].file_size, 3);
    assert_eq!(entries[1].name, "two");
    assert_eq!(entries[1].file_size, 2);
}

#[test]
fn no_records_give_the_trailer_alone() {
    let mut sink: Vec<u8> = Vec::new();
    sink.write_cpio_records(Vec::new()).unwrap();
    let mut closed: Vec<u8> = Vec::new();
    closed.cpio_close().unwrap();
    assert_eq!(sink, closed);
    assert_eq!(sink.len(), 124);
}

#[test]
fn checksum_field_is_written_as_digits_and_read_whatever_it_holds() {
    let mut data = Vec::new();
    entry("name", 1, 0).write(&mut data).unwrap();
    assert_eq!(&data[102..110], b"00000000");
    let mut trailer = Vec::new();
    trailer.cpio_close().unwrap();
    assert_eq!(&trailer[102..110], b"00000000");

    let mut zeroed = data.clone();
    for byte in &mut zeroed[102..110] {
        *byte = 0;
    }
    let read = FileEntry::read(&mut ByteReader::new(zeroed.as_slice())).unwrap();
    assert_eq!(read, entry("name", 1, 0));
    let read = FileEntry::read(&mut ByteReader::new(data.as_slice())).unwrap();
    assert_eq!(read, entry("name", 1, 0));
}
