use rpm_utils::error::ErrorKind;
use rpm_utils::header::{RType, SignatureTag, Tag, Tags, TagsWrite};
use rpm_utils::lead::{Lead, LeadWriter, Type};
use rpm_utils::payload::info::{ALL, ARTIFACT, CONFIGURATION, DOC, GHOST};
use rpm_utils::payload::{FileFlags, FileInfo, RPMPayload};
use rpm_utils::raw::{RawHeader, RawLead};
use rpm_utils::reader::ByteReader;
use rpm_utils::rpm::{RPMBuilder, Scriptlets};
use rpm_utils::signature;
use rpm_utils::{Compressor, RPMFile, RPMInfo};
use std::io::Read;
use std::str::FromStr;

fn no_scripts() -> Scriptlets {
    Scriptlets { pre_install: None, post_install: None, pre_uninstall: None, post_uninstall: None }
}

#[test]
fn test_lead_read_write_smoke() {
    let mut name = [0_u8; 66];
    "testname".as_bytes().read(&mut name).unwrap();

    let lead = Lead { name, ..Default::default() };

    let mut data: Vec<u8> = Vec::new();
    lead.write(&mut data).unwrap();

    let mut cursor = ByteReader::new(data.as_slice());
    let lead2 = Lead::read(&mut cursor).unwrap();

    assert_eq!(lead, lead2);
}

#[test]
fn test_builder_smoke() {
    let mut rpm = RPMBuilder::new()
        .package_name("Test")
        .description("Test Package")
        .summary("Test Package")
        .version("0.1")
        .release("1234")
        .epoch(1)
        .arch("noarch")
        .compression("gzip")
        .filename("test.rpm")
        .build(Vec::<u8>::new(), no_scripts())
        .unwrap();

    let mut sink = Vec::new();
    rpm.write_head(&mut sink).unwrap();
    assert_eq!(rpm.payload_offset, sink.len() as u64);
}

#[test]
fn lead_is_byte_exact() {
    let lead = Lead {
        major: 4,
        minor: 0,
        rpm_type: Type::Source,
        archnum: 0x0102,
        osnum: 0x0304,
        signature_type: 5,
        ..Lead::from_name("pkg-1.0")
    };
    let mut data = vec![0x55u8];
    data.write_lead(&lead).unwrap();
    assert_eq!(data.len(), 97);
    let bytes = &data[1..];
    assert_eq!(&bytes[..4], &[0xED, 0xAB, 0xEE, 0xDB]);
    assert_eq!(&bytes[4..10], &[4, 0, 0, 1, 1, 2]);
    assert_eq!(&bytes[10..17], b"pkg-1.0");
    assert!(bytes[17..76].iter().all(|b| *b == 0));
    assert_eq!(&bytes[76..80], &[3, 4, 0, 5]);
    assert!(bytes[80..].iter().all(|b| *b == 0));

    let mut reader = ByteReader::new(bytes);
    reader.seek(50);
    assert_eq!(Lead::read(&mut reader).unwrap(), lead);
    assert_eq!(reader.position(), 96);
}

#[test]
fn lead_of_each_supported_version_round_trips() {
    for (major, minor) in [(3u8, 0u8), (3, 1), (4, 0)] {
        let lead = Lead { major, minor, ..Lead::default() };
        let mut data = Vec::new();
        lead.write(&mut data).unwrap();
        assert_eq!(Lead::read(&mut ByteReader::new(data.as_slice())).unwrap(), lead);
    }
}

#[test]
fn lead_rejects_what_it_does_not_know() {
    let mut data = Vec::new();
    Lead::default().write(&mut data).unwrap();

    let mut other_version = data.clone();
    other_version[4] = 2;
    other_version[5] = 0;
    let err = Lead::read(&mut ByteReader::new(other_version.as_slice())).unwrap_err();
    assert_eq!(err.kind(), ErrorKind::Unsupported);
    for (major, minor) in [(3u8, 2u8), (4, 1), (5, 0), (0, 0)] {
        other_version[4] = major;
        other_version[5] = minor;
        let err = Lead::read(&mut ByteReader::new(other_version.as_slice())).unwrap_err();
        assert_eq!(err.kind(), ErrorKind::Unsupported);
    }

    let mut other_magic = data.clone();
    other_magic[0] = 0;
    let err = Lead::read(&mut ByteReader::new(other_magic.as_slice())).unwrap_err();
    assert_eq!(err.kind(), ErrorKind::InvalidData);

    let mut other_kind = data.clone();
    other_kind[7] = 2;
    let err = Lead::read(&mut ByteReader::new(other_kind.as_slice())).unwrap_err();
    assert_eq!(err.kind(), ErrorKind::InvalidData);

    for cut in [0, 3, 5, 7, 95] {
        let err = Lead::read(&mut ByteReader::new(&data[..cut])).unwrap_err();
        assert_eq!(err.kind(), ErrorKind::Io);
    }
}

#[test]
fn lead_from_a_name_keeps_66_bytes() {
    let lead = Lead::from_str("short").unwrap();
    assert_eq!(&lead.name[..5], b"short");
    assert!(lead.name[5..].iter().all(|b| *b == 0));
    assert_eq!((lead.major, lead.minor), (3, 1));
    assert_eq!(lead.rpm_type, Type::Binary);
    assert_eq!(lead.signature_type, 5);
    let long: String = (0..100).map(|i| (b'a' + (i % 26) as u8) as char).collect();
    let lead = Lead::from_name(&long);
    assert_eq!(&lead.name[..], &long.as_bytes()[..66]);
    assert_eq!(Type::from_u16(0), Some(Type::Binary));
    assert_eq!(Type::from_u16(1), Some(Type::Source));
    assert_eq!(Type::from_u16(2), None);
    assert_eq!(Type::Source.to_u16(), 1);
}

fn sample_package(compressor: Option<&str>) -> Vec<u8> {
    let mut signature: Tags<SignatureTag> = Tags::new();
    signature.insert_payload_size(5);
    signature.insert(SignatureTag::MD5, RType::Bin(vec![7; 3]));
    let mut header: Tags<Tag> = Tags::new();
    header.insert_name("sample".to_owned());
    if let Some(name) = compressor {
        header.insert_payload_compressor(name.to_owned());
    }
    let mut rpm = RPMFile {
        lead: Lead::from_name("sample"),
        signature_tags: signature,
        header_tags: header,
        payload_offset: 0,
        file: (),
    };
    let mut data = Vec::new();
    rpm.write_head(&mut data).unwrap();
    assert_eq!(rpm.payload_offset, data.len() as u64);
    assert_eq!(data.len() % 8, 0);
    data.extend_from_slice(b"PAYLOAD");
    data
}

#[test]
fn package_head_round_trip() {
    let data = sample_package(Some("zstd"));
    let rpm = RPMFile::read(ByteReader::new(data.as_slice())).unwrap();
    assert_eq!(rpm.lead, Lead::from_name("sample"));
    assert_eq!(rpm.signature_tags.get_as_u64(SignatureTag::PayloadSize), 5);
    assert_eq!(rpm.signature_tags.get_value(SignatureTag::MD5), Some(RType::Bin(vec![7; 3])));
    assert_eq!(rpm.header_tags.get_as_string(Tag::Name), "sample");
    // The metadata store is read up to the end of its data blob.
    assert!(rpm.payload_offset as usize <= data.len() - 7);
    assert_eq!(rpm.file.position() as u64, rpm.payload_offset);
    assert_eq!(rpm.payload_compressor().unwrap(), Compressor::Zstd);
    let offset = rpm.payload_offset as usize;
    let (compressor, mut reader) = rpm.into_payload_reader().unwrap();
    assert_eq!(compressor, Compressor::Zstd);
    assert_eq!(reader.position(), offset);
    let rest = reader.read_exact(reader.available()).unwrap();
    assert!(rest.ends_with(b"PAYLOAD"));
}

#[test]
fn package_of_another_version_is_unsupported() {
    let mut data = sample_package(None);
    data[4] = 2;
    data[5] = 0;
    let err = RPMFile::read(ByteReader::new(data.as_slice())).err().unwrap();
    assert_eq!(err.kind(), ErrorKind::Unsupported);
    let err = RPMFile::read(ByteReader::new(&[0xED, 0xAB, 0xEE, 0xDB, 0x02, 0x00])).err().unwrap();
    assert_eq!(err.kind(), ErrorKind::Unsupported);
}

#[test]
fn truncated_and_damaged_packages_are_rejected() {
    let data = sample_package(None);
    let err = RPMFile::read(ByteReader::new(&data[..96])).err().unwrap();
    assert_eq!(err.kind(), ErrorKind::Io);
    let err = RPMFile::read(ByteReader::new(&data[..120])).err().unwrap();
    assert_eq!(err.kind(), ErrorKind::Io);
    let mut damaged = data.clone();
    damaged[96] = 0;
    let err = RPMFile::read(ByteReader::new(damaged.as_slice())).err().unwrap();
    assert_eq!(err.kind(), ErrorKind::InvalidData);
}

#[test]
fn compressor_dispatch() {
    assert_eq!(Compressor::from_name("gzip").unwrap(), Compressor::Gzip);
    assert_eq!(Compressor::from_name("bzip2").unwrap(), Compressor::Bzip2);
    assert_eq!(Compressor::from_name("zstd").unwrap(), Compressor::Zstd);
    assert_eq!(Compressor::from_name("xz").unwrap(), Compressor::Xz);
    assert_eq!(Compressor::from_name("lzma").unwrap(), Compressor::Lzma);
    assert_eq!(Compressor::from_name("snappy").unwrap_err().kind(), ErrorKind::Unsupported);
    assert_eq!(Compressor::from_name("GZIP").unwrap_err().kind(), ErrorKind::Unsupported);
    assert_eq!(Compressor::from_name("").unwrap_err().kind(), ErrorKind::Unsupported);
    for c in [
        Compressor::Gzip,
        Compressor::Bzip2,
        Compressor::Zstd,
        Compressor::Xz,
        Compressor::Lzma,
    ] {
        assert_eq!(Compressor::from_name(c.name()).unwrap(), c);
    }

    let zstd = sample_package(Some("zstd"));
    let rpm = RPMFile::read(ByteReader::new(zstd.as_slice())).unwrap();
    assert_eq!(rpm.into_payload_reader().unwrap().0, Compressor::Zstd);

    let snappy = sample_package(Some("snappy"));
    let rpm = RPMFile::read(ByteReader::new(snappy.as_slice())).unwrap();
    assert_eq!(rpm.payload_compressor().unwrap_err().kind(), ErrorKind::Unsupported);
    assert_eq!(rpm.into_payload_reader().err().unwrap().kind(), ErrorKind::Unsupported);

    let unnamed = sample_package(None);
    let rpm = RPMFile::read(ByteReader::new(unnamed.as_slice())).unwrap();
    assert_eq!(rpm.payload_compressor().unwrap(), Compressor::Gzip);
}

#[test]
fn compressor_that_is_no_text_is_invalid_data() {
    let mut header: Tags<Tag> = Tags::new();
    header.insert(Tag::PayloadCompressor, RType::Int32Array(vec![1, 2]));
    let rpm = RPMFile {
        lead: Lead::default(),
        signature_tags: Tags::<SignatureTag>::new(),
        header_tags: header,
        payload_offset: 0,
        file: (),
    };
    assert_eq!(rpm.payload_compressor().unwrap_err().kind(), ErrorKind::InvalidData);
}

#[test]
fn head_that_cannot_be_written_leaves_the_sink_alone() {
    let mut header: Tags<Tag> = Tags::new();
    header.insert(Tag::Other, RType::Null);
    let mut rpm = RPMFile {
        lead: Lead::default(),
        signature_tags: Tags::<SignatureTag>::new(),
        header_tags: header,
        payload_offset: 42,
        file: (),
    };
    let mut sink = vec![1u8, 2, 3];
    assert_eq!(rpm.write_head(&mut sink).unwrap_err().kind(), ErrorKind::InvalidInput);
    assert_eq!(sink, vec![1u8, 2, 3]);
    assert_eq!(rpm.payload_offset, 42);
}

#[test]
fn builder_collects_what_it_is_told() {
    let builder = RPMBuilder::with_environment(1_600_000_000, "host".to_owned())
        .filename("out.rpm")
        .package_name("pkg")
        .version("2.0")
        .release("3")
        .epoch(4)
        .arch("x86_64")
        .package_group("g".to_owned())
        .license("MIT".to_owned())
        .source_rpm("pkg.src.rpm".to_owned())
        .summary("sum")
        .description("desc")
        .default_user("u")
        .default_group("grp")
        .compression("xz")
        .pre_install("pre.sh")
        .post_install("post.sh")
        .pre_uninstall("preun.sh")
        .post_uninstall("postun.sh")
        .add_file("f1")
        .add_files(vec!["f2", "f3"])
        .add_directory("d1")
        .add_directories(vec!["d2"])
        .add_link("l1")
        .add_links(vec!["l2", "l3"]);
    assert_eq!(builder.output_file(), Some("out.rpm".to_owned()));
    let names = builder.script_files();
    assert_eq!(names.pre_install, Some("pre.sh".to_owned()));
    assert_eq!(names.post_install, Some("post.sh".to_owned()));
    assert_eq!(names.pre_uninstall, Some("preun.sh".to_owned()));
    assert_eq!(names.post_uninstall, Some("postun.sh".to_owned()));

    let scripts = Scriptlets {
        pre_install: Some("echo pre".to_owned()),
        post_install: None,
        pre_uninstall: None,
        post_uninstall: Some("echo bye".to_owned()),
    };
    let rpm = builder.build((), scripts).unwrap();
    assert_eq!(rpm.payload_offset, 0);
    assert_eq!(rpm.lead, Lead::from_name("pkg"));
    let h = &rpm.header_tags;
    assert_eq!(h.get_value(Tag::Name), Some(RType::String("pkg".to_owned())));
    assert_eq!(h.get_value(Tag::Epoch), Some(RType::Int8(4)));
    assert_eq!(h.get_value(Tag::Version), Some(RType::String("2.0".to_owned())));
    assert_eq!(h.get_value(Tag::Arch), Some(RType::String("x86_64".to_owned())));
    assert_eq!(h.get_value(Tag::Group), Some(RType::String("g".to_owned())));
    assert_eq!(h.get_value(Tag::Size), Some(RType::Int64(0)));
    assert_eq!(h.get_value(Tag::License), Some(RType::String("MIT".to_owned())));
    assert_eq!(h.get_value(Tag::SourceRpm), Some(RType::String("pkg.src.rpm".to_owned())));
    assert_eq!(h.get_value(Tag::BuildTime), Some(RType::Int64(1_600_000_000)));
    assert_eq!(h.get_value(Tag::BuildHost), Some(RType::String("host".to_owned())));
    assert_eq!(h.get_value(Tag::Summary), Some(RType::String("sum".to_owned())));
    assert_eq!(h.get_value(Tag::Description), Some(RType::String("desc".to_owned())));
    assert_eq!(h.get_value(Tag::PayloadFormat), Some(RType::String("cpio".to_owned())));
    assert_eq!(h.get_value(Tag::PayloadCompressor), Some(RType::String("xz".to_owned())));
    assert_eq!(h.get_value(Tag::PayloadFlags), Some(RType::String("6".to_owned())));
    assert_eq!(h.get_value(Tag::PreIn), Some(RType::String("echo pre".to_owned())));
    assert_eq!(h.get_value(Tag::PostIn), None);
    assert_eq!(h.get_value(Tag::PreUn), None);
    assert_eq!(h.get_value(Tag::PostUn), Some(RType::String("echo bye".to_owned())));
    assert_eq!(h.get_value(Tag::Release), None);
    assert_eq!(h.len(), 17);
    assert_eq!(rpm.signature_tags.get_value(SignatureTag::PayloadSize), Some(RType::Int64(0)));
    assert_eq!(rpm.payload_compressor().unwrap(), Compressor::Xz);
}

#[test]
fn builder_needs_an_output_file_and_a_time_after_1970() {
    let err = RPMBuilder::with_environment(0, String::new()).build((), no_scripts()).err().unwrap();
    assert_eq!(err.kind(), ErrorKind::InvalidInput);
    let err = RPMBuilder::with_environment(0, String::new())
        .filename("x.rpm")
        .build_time(-1)
        .build((), no_scripts())
        .err()
        .unwrap();
    assert_eq!(err.kind(), ErrorKind::InvalidInput);
    let rpm = RPMBuilder::default()
        .filename("x.rpm")
        .build_host("b")
        .build_time(0)
        .build((), no_scripts())
        .unwrap();
    assert_eq!(rpm.header_tags.get_value(Tag::BuildHost), Some(RType::String("b".to_owned())));
    assert_eq!(rpm.header_tags.get_value(Tag::Name), Some(RType::String(String::new())));
    assert_eq!(rpm.header_tags.get_value(Tag::PayloadCompressor), Some(RType::String(String::new())));
}

#[test]
fn new_builder_has_the_usual_defaults() {
    let rpm = RPMBuilder::new().filename("x.rpm").build_time(5).build((), no_scripts()).unwrap();
    let h = &rpm.header_tags;
    assert_eq!(h.get_value(Tag::Arch), Some(RType::String("noarch".to_owned())));
    assert_eq!(h.get_value(Tag::PayloadCompressor), Some(RType::String("gzip".to_owned())));
    assert_eq!(h.get_value(Tag::Epoch), Some(RType::Int8(0)));
    assert_eq!(h.get_value(Tag::BuildTime), Some(RType::Int64(5)));
}

fn described_header() -> Tags<Tag> {
    let mut header: Tags<Tag> = Tags::new();
    header.insert(Tag::Name, RType::String("pkg".to_owned()));
    header.insert(Tag::Version, RType::String("1.0".to_owned()));
    header.insert(Tag::Release, RType::String("2".to_owned()));
    header.insert(Tag::Arch, RType::String("noarch".to_owned()));
    header.insert(Tag::Group, RType::String("grp".to_owned()));
    header.insert(Tag::Size, RType::Int32(77));
    header.insert(Tag::BuildTime, RType::Int32(1_500_000_000));
    header.insert(Tag::BuildHost, RType::String("host".to_owned()));
    header.insert(Tag::Summary, RType::I18nstring("sum".to_owned()));
    header.insert(Tag::Description, RType::I18nstring("desc".to_owned()));
    header.insert(Tag::PayloadFormat, RType::String("cpio".to_owned()));
    header.insert(Tag::PayloadCompressor, RType::String("gzip".to_owned()));
    header.insert(Tag::PayloadFlags, RType::String("9".to_owned()));
    header.insert(Tag::DirNames, RType::StringArray(vec!["/usr/".to_owned(), "/etc/".to_owned()]));
    header.insert(Tag::DirIndexes, RType::Int32Array(vec![1, 0]));
    header.insert(Tag::BaseNames, RType::StringArray(vec!["conf".to_owned(), "bin".to_owned()]));
    header.insert(Tag::FileSizes, RType::Int32Array(vec![10, 20]));
    header.insert(Tag::FileUserName, RType::StringArray(vec!["root".to_owned(), "me".to_owned()]));
    header.insert(Tag::FileGroupName, RType::StringArray(vec!["wheel".to_owned(), "us".to_owned()]));
    header.insert(Tag::FileFlags, RType::Int32Array(vec![1, 0]));
    header.insert(Tag::FileMTimes, RType::Int32Array(vec![111, 222]));
    header.insert(Tag::FileModes, RType::Int16Array(vec![0o644, 0o755]));
    header.insert(Tag::FileDevices, RType::Int32Array(vec![1, 1]));
    header.insert(Tag::FileInodes, RType::Int32Array(vec![5, 6]));
    header.insert(Tag::FileMD5s, RType::StringArray(vec!["aa".to_owned(), "bb".to_owned()]));
    header
}

fn described(header: Tags<Tag>) -> RPMFile<()> {
    let mut signature: Tags<SignatureTag> = Tags::new();
    signature.insert(SignatureTag::PayloadSize, RType::Int32(1234));
    RPMFile {
        lead: Lead::default(),
        signature_tags: signature,
        header_tags: header,
        payload_offset: 0,
        file: (),
    }
}

#[test]
fn info_is_read_from_the_stores() {
    let info = RPMInfo::from_rpm(&described(described_header())).unwrap();
    assert_eq!(info.name, "pkg");
    assert_eq!(info.epoch, 0);
    assert_eq!(info.version, "1.0");
    assert_eq!(info.release, "2");
    assert_eq!(info.arch, "noarch");
    assert_eq!(info.group, "grp");
    assert_eq!(info.size, 77);
    assert_eq!(info.license, "");
    assert_eq!(info.source_rpm, "");
    assert_eq!(info.build_time, 1_500_000_000);
    assert_eq!(info.build_host, "host");
    assert_eq!(info.summary, "sum");
    assert_eq!(info.description, "desc");
    assert_eq!(info.payload.size, 1234);
    assert_eq!(info.payload.format, "cpio");
    assert_eq!(info.payload.compressor, "gzip");
    assert_eq!(info.payload.flags, "9");
    assert_eq!(info.payload.files.len(), 2);
    let first = &info.payload.files[0];
    assert_eq!(first.name, "/etc/conf");
    assert_eq!(first.size, 10);
    assert_eq!(first.user, "root");
    assert_eq!(first.group, "wheel");
    assert_eq!(first.linkname, "wheel");
    assert_eq!(first.flags, 1);
    assert_eq!(first.mtime, 111);
    assert_eq!(first.mode, 0o644);
    assert_eq!(first.device, 1);
    assert_eq!(first.inode, 5);
    assert_eq!(first.digest, "aa");
    let second = &info.payload.files[1];
    assert_eq!(second.name, "/usr/bin");
    assert_eq!(second.mode, 0o755);
    assert_eq!(second.digest, "bb");
}

#[test]
fn info_without_a_file_table_has_no_files() {
    let mut header: Tags<Tag> = Tags::new();
    for (tag, value) in [
        (Tag::Name, "n"),
        (Tag::Version, "v"),
        (Tag::Release, "r"),
        (Tag::Arch, "a"),
        (Tag::Group, "g"),
        (Tag::BuildHost, "h"),
        (Tag::Summary, "s"),
        (Tag::Description, "d"),
        (Tag::PayloadFormat, "cpio"),
        (Tag::PayloadCompressor, "xz"),
        (Tag::PayloadFlags, "2"),
        (Tag::License, "GPL"),
    ] {
        header.insert(tag, RType::String(value.to_owned()));
    }
    header.insert(Tag::Epoch, RType::Int8(2));
    header.insert(Tag::Size, RType::Int64(1 << 40));
    header.insert(Tag::BuildTime, RType::Int16(9));
    let info = RPMInfo::from_rpm(&described(header)).unwrap();
    assert!(info.payload.files.is_empty());
    assert_eq!(info.epoch, 2);
    assert_eq!(info.size, 1 << 40);
    assert_eq!(info.license, "GPL");
    assert_eq!(info.build_time, 9);
}

#[test]
fn info_needs_its_tags() {
    let mut header = described_header();
    header.insert(Tag::BuildTime, RType::Int64(1));
    assert_eq!(
        RPMInfo::from_rpm(&described(header)).err().unwrap().kind(),
        ErrorKind::InvalidData
    );

    let mut header = described_header();
    header.insert(Tag::Name, RType::Int32Array(vec![1, 2]));
    assert!(RPMInfo::from_rpm(&described(header)).is_err());

    let mut header = described_header();
    header.insert(Tag::DirIndexes, RType::Int32Array(vec![1, 2]));
    assert!(RPMInfo::from_rpm(&described(header)).is_err());

    let mut header = described_header();
    header.insert(Tag::FileInodes, RType::Int32(5));
    assert!(RPMInfo::from_rpm(&described(header)).is_err());

    let mut header = described_header();
    header.insert(Tag::FileInodes, RType::Int32Array(vec![5, 6, 7]));
    assert!(RPMInfo::from_rpm(&described(header)).is_ok());

    let mut header = described_header();
    header.insert(Tag::FileFlags, RType::Int8Array(vec![5, 6]));
    header.insert(Tag::FileMTimes, RType::Int64Array(vec![5, 6]));
    assert!(RPMInfo::from_rpm(&described(header)).is_err());

    let mut header = described_header();
    header.insert(Tag::BaseNames, RType::String("not a list".to_owned()));
    assert!(RPMInfo::from_rpm(&described(header)).is_err());

    let mut rpm = described(described_header());
    rpm.signature_tags = Tags::new();
    assert!(RPMInfo::from_rpm(&rpm).is_err());
}

#[test]
fn the_shortest_column_bounds_the_file_table() {
    let mut header = described_header();
    header.insert(Tag::FileMD5s, RType::StringArray(vec!["only".to_owned()]));
    let info = RPMInfo::from_rpm(&described(header)).unwrap();
    assert_eq!(info.payload.files.len(), 1);
    assert_eq!(info.payload.files[0].name, "/etc/conf");
    assert_eq!(info.payload.files[0].digest, "only");
}

#[test]
fn info_turns_into_a_package() {
    let info = RPMInfo {
        name: "pkg".to_owned(),
        epoch: 1,
        version: "v".to_owned(),
        release: "r".to_owned(),
        arch: "a".to_owned(),
        group: "g".to_owned(),
        size: 10,
        license: "l".to_owned(),
        source_rpm: "s".to_owned(),
        build_time: 77,
        build_host: "h".to_owned(),
        summary: "sum".to_owned(),
        description: "d".to_owned(),
        payload: RPMPayload {
            size: 99,
            format: "cpio".to_owned(),
            compressor: "bzip2".to_owned(),
            flags: "1".to_owned(),
            files: vec![FileInfo::default()],
        },
    };
    assert_eq!(info.lead(), Lead::from_name("pkg"));
    let rpm = info.into_rpm(7u8);
    assert_eq!(rpm.file, 7);
    assert_eq!(rpm.payload_offset, 0);
    assert_eq!(rpm.lead, Lead::from_name("pkg"));
    assert_eq!(rpm.header_tags.len(), 15);
    assert_eq!(rpm.header_tags.get_value(Tag::BuildTime), Some(RType::Int64(77)));
    assert_eq!(rpm.header_tags.get_value(Tag::Size), Some(RType::Int64(10)));
    assert_eq!(rpm.header_tags.get_value(Tag::Epoch), Some(RType::Int8(1)));
    assert_eq!(rpm.header_tags.get_value(Tag::PayloadCompressor), Some(RType::String("bzip2".to_owned())));
    assert_eq!(rpm.header_tags.get_value(Tag::Release), None);
    assert_eq!(rpm.signature_tags.get_value(SignatureTag::PayloadSize), Some(RType::Int64(99)));
    assert_eq!(rpm.payload_compressor().unwrap(), Compressor::Bzip2);

    let mut sink: Vec<u8> = Vec::new();
    sink.write_header(&rpm.header_tags).unwrap();
    let back: Tags<Tag> = Tags::read_store(&mut ByteReader::new(sink.as_slice())).unwrap();
    assert_eq!(back.get_as_string(Tag::Name), "pkg");
}

#[test]
fn file_descriptions_have_defaults() {
    let info = FileInfo::default();
    assert_eq!(info.name, "");
    assert_eq!(info.user, "root");
    assert_eq!(info.group, "root");
    assert_eq!(info.linkname, "root");
    assert_eq!(info.mode, 33188);
    assert_eq!(info.size, 0);
    let payload = RPMPayload::default();
    assert_eq!(payload.size, 0);
    assert!(payload.files.is_empty());
    assert_eq!(payload.format, "");
}

#[test]
fn file_flags_are_bits() {
    assert_eq!(CONFIGURATION, 1);
    assert_eq!(DOC, 2);
    assert_eq!(GHOST, 64);
    assert_eq!(ARTIFACT, 4096);
    let flags = FileFlags::from_bits_truncate(CONFIGURATION | GHOST);
    assert_eq!(flags.bits(), 65);
    assert!(flags.contains(CONFIGURATION));
    assert!(flags.contains(GHOST));
    assert!(flags.contains(CONFIGURATION | GHOST));
    assert!(!flags.contains(DOC));
    assert!(!flags.contains(DOC | GHOST));
}

#[test]
fn raw_lead_takes_any_version() {
    let mut data = Vec::new();
    let lead = Lead { archnum: 9, osnum: 3, signature_type: 5, ..Lead::from_name("raw") };
    lead.write(&mut data).unwrap();
    data[4] = 9;
    data[5] = 8;
    data[80] = 1;
    let raw = RawLead::read(&mut ByteReader::new(data.as_slice())).unwrap();
    assert_eq!(raw.magic, [237, 171, 238, 219]);
    assert_eq!((raw.major, raw.minor), (9, 8));
    assert_eq!(raw.rpm_type, rpm_utils::raw::Type::Binary);
    assert_eq!(raw.archnum, 9);
    assert_eq!(&raw.name[..3], b"raw");
    assert_eq!(raw.osnum, 3);
    assert_eq!(raw.signature_type, 0);
    assert_eq!(raw.reserved[0], 1);

    data[7] = 5;
    let err = RawLead::read(&mut ByteReader::new(data.as_slice())).unwrap_err();
    assert_eq!(err.kind(), ErrorKind::InvalidData);
    data[0] = 1;
    let err = RawLead::read(&mut ByteReader::new(data.as_slice())).unwrap_err();
    assert_eq!(err.kind(), ErrorKind::InvalidData);
    let err = RawLead::read(&mut ByteReader::new(&[237, 171, 238, 219, 3])).unwrap_err();
    assert_eq!(err.kind(), ErrorKind::Io);
    let d = RawLead::default();
    assert_eq!((d.major, d.minor, d.signature_type), (0, 0, 0));
}

#[test]
fn raw_header_reads_the_sixteen_bytes() {
    let data = [0x8e, 0xad, 0xe8, 0x01, 9, 8, 7, 6, 0, 0, 0, 3, 0, 0, 1, 0, 0xff];
    let mut reader = ByteReader::new(&data);
    let header = RawHeader::read(&mut reader).unwrap();
    assert_eq!(header.magic, [0x8e, 0xad, 0xe8, 0x01]);
    assert_eq!(header.reserved, [9, 8, 7, 6]);
    assert_eq!(header.nindex, 3);
    assert_eq!(header.hsize, 256);
    assert_eq!(reader.position(), 16);
    let err = RawHeader::read(&mut ByteReader::new(&data[1..])).unwrap_err();
    assert_eq!(err.kind(), ErrorKind::InvalidData);
    let err = RawHeader::read(&mut ByteReader::new(&data[..10])).unwrap_err();
    assert_eq!(err.kind(), ErrorKind::Io);
    assert_eq!(RawHeader::default().nindex, 0);
}

#[test]
fn signature_tags_are_told_apart() {
    assert_eq!(signature::Tag::from(62), signature::Tag::HeaderSignatures);
    assert_eq!(signature::Tag::from(63), signature::Tag::HeaderImmutable);
    assert_eq!(signature::Tag::from(100), signature::Tag::Headeri18Ntable);
    assert_eq!(signature::Tag::from(1000), signature::Tag::Size);
    assert_eq!(signature::Tag::from(4711), signature::Tag::Other(4711));
    assert_eq!(signature::Tag::from(-1), signature::Tag::Other(-1));
}

#[test]
fn info_of_a_complete_store_needs_no_unwrapping() {
    let rpm = described(described_header());
    let info = RPMInfo::from(&rpm);
    let same = RPMInfo::from_rpm(&rpm).unwrap();
    assert_eq!(info.name, "pkg");
    assert_eq!(info.name, same.name);
    assert_eq!(info.version, same.version);
    assert_eq!(info.build_time, same.build_time);
    assert_eq!(info.payload.size, same.payload.size);
    assert_eq!(info.payload.files.len(), same.payload.files.len());
}

#[test]
fn bits_that_stand_for_no_flag_are_dropped() {
    assert_eq!(ALL, 0x19df);
    assert_eq!(FileFlags::from_bits_truncate(u32::MAX).bits(), 0x19df);
    assert_eq!(FileFlags::from_bits_truncate(1 << 5).bits(), 0);
    assert_eq!(FileFlags::from_bits_truncate((1 << 9) | (1 << 10) | DOC).bits(), DOC);
    assert_eq!(FileFlags::from_bits_truncate(0).bits(), 0);
}
