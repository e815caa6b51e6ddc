use hezi::archive::{
    datetime_from_timestamp, ArchiveCompression, ArchiveError, ArchiveEvent,
    ArchiveFileEntityType, ArchiveType, Fault, MagicBytesAt, MagicNumbers, SimpleLogger,
    SkipReason,
};

#[test]
fn test_archive_file_entity_type() {
    assert_eq!(
        ArchiveFileEntityType::try_from("file").unwrap(),
        ArchiveFileEntityType::File
    );
    assert_eq!(
        ArchiveFileEntityType::try_from("dir").unwrap(),
        ArchiveFileEntityType::Directory
    );
    assert_eq!(
        ArchiveFileEntityType::try_from("symlink").unwrap(),
        ArchiveFileEntityType::SymbolicLink
    );
    assert_eq!(
        ArchiveFileEntityType::try_from("unknown").unwrap(),
        ArchiveFileEntityType::Unknown
    );
}

#[test]
fn kinds_have_labels() {
    assert!(ArchiveFileEntityType::try_from("File").is_err());
    assert_eq!(ArchiveFileEntityType::File.to_string(), "file");
    assert_eq!(ArchiveFileEntityType::Directory.to_string(), "dir");
    assert_eq!(ArchiveFileEntityType::SymbolicLink.to_string(), "symlink");
    assert_eq!(ArchiveFileEntityType::Unknown.to_string(), "unknown");
    assert_eq!(ArchiveType::Zip.to_string(), "zip");
    assert_eq!(ArchiveType::Tar.to_string(), "tar");
    assert_eq!(ArchiveType::SevenZ.to_string(), "7z");
    assert_eq!(ArchiveType::Iso.to_string(), "iso");
}

#[test]
fn windows_are_shown_in_hex_and_as_text() {
    let w = MagicBytesAt::<5>(0x8001, *b"CD001");
    assert_eq!(w.to_hex_string(), "0x008001: [43 44 30 30 31]");
    assert_eq!(w.to_string(), "0x008001: 'CD001'");
    let big = MagicBytesAt::<2>(0x1234_5678_9abc, [0x00, 0xff]);
    assert_eq!(big.to_hex_string(), "0x123456789ABC: [00 FF]");
    let none = MagicBytesAt::<0>(0, []);
    assert_eq!(none.to_hex_string(), "0x000000: []");
}

#[test]
fn unknown_archives_show_every_window() {
    let m = MagicNumbers {
        zip: MagicBytesAt(0, *b"abcdefgh"),
        tar: MagicBytesAt(257, *b"ABCDEFGH"),
        iso: (
            MagicBytesAt(0x8001, [1, 2, 3, 4, 5]),
            MagicBytesAt(0x8801, [0; 5]),
            MagicBytesAt(0x9001, [255; 5]),
        ),
    };
    let expected = "zip at 0x000000: 'abcdefgh', tar at 0x000101: 'ABCDEFGH', \
                    iso at 0x008001: [01 02 03 04 05], iso at 0x008801: [00 00 00 00 00], \
                    iso at 0x009001: [FF FF FF FF FF]";
    assert_eq!(m.to_string(), expected);
    assert_eq!(
        ArchiveError::UnknownArchiveType(m).to_string(),
        format!("Unknown archive type, magic numbers: {}", expected)
    );
}

#[test]
fn errors_show_what_they_carry() {
    assert_eq!(
        ArchiveError::UnknownFileExtension("a.rar".to_string()).to_string(),
        "Unknown file extension: a.rar"
    );
    assert_eq!(
        ArchiveError::InvalidDataSource("int".to_string()).to_string(),
        "Invalid data source for the archive: int"
    );
    assert_eq!(
        ArchiveError::UnsupportedCompression(ArchiveCompression::Unknown("lz4".to_string()))
            .to_string(),
        "Unsupported compression: unknown (lz4)"
    );
    assert_eq!(
        ArchiveError::CompressionMethodRequired.to_string(),
        "Compression method required for this type of archive."
    );
    assert_eq!(
        ArchiveError::UnsupportedActionForArchiveType("create".to_string(), ArchiveType::Iso)
            .to_string(),
        "Action `create` is unsupported for iso archives."
    );
    assert_eq!(
        ArchiveError::EntryNotFound("a/b".to_string()).to_string(),
        "Entry not found: a/b"
    );
    assert_eq!(
        ArchiveError::Iso("bad".to_string()).to_string(),
        "ISOError: bad"
    );
    assert_eq!(
        ArchiveError::Json("bad".to_string()).to_string(),
        "JsonError: bad"
    );
    let io = || std::io::Error::new(std::io::ErrorKind::Other, "boom");
    assert_eq!(ArchiveError::Io(io()).to_string(), "boom");
    assert_eq!(ArchiveError::Tar(io()).to_string(), "TarError: boom");
    assert_eq!(
        ArchiveError::Finish("GzEncoder".to_string(), io()).to_string(),
        "FinishError: Failed to finish encoder GzEncoder: boom"
    );
    assert_eq!(
        ArchiveError::Zip(zip::result::ZipError::FileNotFound).to_string(),
        format!("ZipError: {}", zip::result::ZipError::FileNotFound)
    );
    assert_eq!(
        ArchiveError::Password(zip::result::InvalidPassword).to_string(),
        format!("PasswordError: {}", zip::result::InvalidPassword)
    );
    assert_eq!(
        ArchiveError::SevenZ(sevenz_rust::Error::PasswordRequired).to_string(),
        format!("SevenZError: {}", sevenz_rust::Error::PasswordRequired)
    );
}

#[test]
fn events_are_worded_as_lines() {
    let log = SimpleLogger;
    let line = |e: ArchiveEvent| log.message(&e);
    assert_eq!(
        line(ArchiveEvent::Extracting("a".to_string(), Some(1510))),
        "Extracting a (1510)"
    );
    assert_eq!(
        line(ArchiveEvent::Extracting("a".to_string(), Some(0))),
        "Extracting a (0)"
    );
    assert_eq!(
        line(ArchiveEvent::Extracting("a".to_string(), Some(u64::MAX))),
        "Extracting a (18446744073709551615)"
    );
    assert_eq!(
        line(ArchiveEvent::Extracting("a".to_string(), None)),
        "Extracting a"
    );
    assert_eq!(
        line(ArchiveEvent::DoneExtracting("a.zip".to_string(), "out".to_string())),
        "Done extracting a.zip to out"
    );
    assert_eq!(
        line(ArchiveEvent::FailedToReadEntry(
            "x".to_string(),
            ArchiveError::EntryNotFound("x".to_string())
        )),
        "Failed to read entry x: Entry not found: x"
    );
    assert_eq!(
        line(ArchiveEvent::Created(
            "d".to_string(),
            ArchiveFileEntityType::Directory
        )),
        "Created dir: d"
    );
    assert_eq!(
        line(ArchiveEvent::Skipped("f".to_string(), SkipReason::Hidden)),
        "Skipped hidden file f"
    );
    assert_eq!(
        line(ArchiveEvent::Skipped("f".to_string(), SkipReason::NotInFiles)),
        "Skipped file f not in files"
    );
    assert_eq!(
        line(ArchiveEvent::Skipped("f".to_string(), SkipReason::AlreadyExists)),
        "Skipped file f already exists"
    );
    assert_eq!(
        line(ArchiveEvent::Skipped("f".to_string(), SkipReason::UnknownType)),
        "Skipped file f with unknown type"
    );
    assert_eq!(line(ArchiveEvent::Log("hello".to_string())), "hello");
}

#[test]
fn timestamps_keep_their_moment() {
    let at = datetime_from_timestamp(1_609_459_200).unwrap();
    assert_eq!(at.seconds, 1_609_459_200);
    assert!(at.offset > -86_400 && at.offset < 86_400);
    assert!(datetime_from_timestamp(-62_167_219_200).is_ok());
    assert!(datetime_from_timestamp(253_402_300_799).is_ok());
    assert_eq!(datetime_from_timestamp(-62_167_219_201).unwrap().seconds, -62_167_219_201);
    assert_eq!(datetime_from_timestamp(253_402_300_800).unwrap().seconds, 253_402_300_800);
    assert!(datetime_from_timestamp(i64::MAX).is_err());
    assert!(datetime_from_timestamp(i64::MIN).is_err());
}

#[test]
fn methods_of_7z_stand_for_compressions() {
    assert_eq!(ArchiveCompression::from_method_name("LZMA"), ArchiveCompression::Lzma);
    assert_eq!(ArchiveCompression::from_method_name("LZMA2"), ArchiveCompression::Lzma);
    assert_eq!(ArchiveCompression::from_method_name("ZSTD"), ArchiveCompression::Zstd);
    assert_eq!(ArchiveCompression::from_method_name("DEFLATE"), ArchiveCompression::Deflate);
    assert_eq!(ArchiveCompression::from_method_name("DEFLATE64"), ArchiveCompression::Deflate);
    assert_eq!(ArchiveCompression::from_method_name("BZIP2"), ArchiveCompression::Bzip2);
    assert_eq!(ArchiveCompression::from_method_name("AES256SHA256"), ArchiveCompression::Aes);
    assert_eq!(
        ArchiveCompression::from_method_name("COPY"),
        ArchiveCompression::Unknown("COPY".to_string())
    );
}

#[test]
fn every_error_has_its_kind() {
    let name = "x".to_string();
    assert_eq!(ArchiveError::EntryNotFound(name.clone()).kind(), Fault::EntryNotFound);
    assert_eq!(ArchiveError::InvalidDataSource(name.clone()).kind(), Fault::InvalidDataSource);
    assert_eq!(ArchiveError::UnknownFileExtension(name.clone()).kind(), Fault::UnknownFileExtension);
    assert_eq!(ArchiveError::Iso(name.clone()).kind(), Fault::Iso);
    assert_eq!(ArchiveError::Json(name).kind(), Fault::Json);
    assert_eq!(ArchiveError::CompressionMethodRequired.kind(), Fault::CompressionMethodRequired);
    assert_eq!(
        ArchiveError::UnsupportedCompression(ArchiveCompression::Aes).kind(),
        Fault::UnsupportedCompression
    );
    assert_eq!(
        ArchiveError::UnsupportedActionForArchiveType("create".to_string(), ArchiveType::Iso).kind(),
        Fault::UnsupportedActionForArchiveType
    );
    assert_eq!(
        ArchiveError::Zip(zip::result::ZipError::FileNotFound).kind(),
        Fault::Zip
    );
    assert_eq!(
        ArchiveError::Password(zip::result::InvalidPassword).kind(),
        Fault::Password
    );
    let io = || std::io::Error::from(std::io::ErrorKind::NotFound);
    assert_eq!(ArchiveError::Io(io()).kind(), Fault::Io);
    assert_eq!(ArchiveError::Tar(io()).kind(), Fault::Tar);
    assert_eq!(ArchiveError::Finish("gzip".to_string(), io()).kind(), Fault::Finish);
    assert_eq!(
        ArchiveError::SevenZ(sevenz_rust::Error::other("no")).kind(),
        Fault::SevenZ
    );
}
