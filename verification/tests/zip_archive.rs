use hezi::archive::{
    ArchiveError, ArchiveEvent, ArchiveFileEntityType, Archived, DataSource, ExtractOptions,
    ListOptions, OpenOptions, SkipReason, ZipArchive,
};
use std::io::Write;

fn sample() -> Vec<u8> {
    let mut zip = zip::ZipWriter::new(std::io::Cursor::new(Vec::new()));
    let stored =
        zip::write::FileOptions::default().compression_method(zip::CompressionMethod::Stored);
    let deflated =
        zip::write::FileOptions::default().compression_method(zip::CompressionMethod::Deflated);
    zip.add_directory("test1/dir1/", stored).unwrap();
    zip.start_file("test1/dir1/file2.txt", deflated).unwrap();
    zip.write_all(&vec![b'a'; 444]).unwrap();
    zip.start_file("test1/file1.txt", deflated).unwrap();
    zip.write_all(&vec![b'b'; 1510]).unwrap();
    zip.start_file(".hidden", stored).unwrap();
    zip.write_all(b"secret").unwrap();
    zip.set_comment("a comment");
    zip.finish().unwrap().into_inner()
}

fn archive(bytes: &Vec<u8>) -> ZipArchive<'_> {
    ZipArchive::of(DataSource::file("sample.zip", bytes)).unwrap()
}

#[test]
fn zip_lists_entries_in_the_order_of_the_directory() {
    let bytes = sample();
    let mut events = Vec::new();
    let entities = archive(&bytes)
        .list(&ListOptions::default(), &mut events)
        .unwrap();
    assert!(events.is_empty());
    assert_eq!(entities.len(), 4);

    let entity = &entities[0];
    assert_eq!(entity.name(), "test1/dir1/");
    assert_eq!(entity.size(), None);
    assert_eq!(entity.compressed_size(), None);
    assert_eq!(entity.fstype(), ArchiveFileEntityType::Directory);
    assert_eq!(entity.compression(), Some("Stored"));

    let entity = &entities[1];
    assert_eq!(entity.name(), "test1/dir1/file2.txt");
    assert_eq!(entity.size(), Some(444));
    assert!(entity.compressed_size().unwrap() < 444);
    assert_eq!(entity.fstype(), ArchiveFileEntityType::File);
    assert_eq!(entity.compression(), Some("Deflated"));
    assert!(entity.last_modified().is_some());

    let entity = &entities[2];
    assert_eq!(entity.name(), "test1/file1.txt");
    assert_eq!(entity.size(), Some(1510));
    assert_eq!(entity.fstype(), ArchiveFileEntityType::File);
    assert_eq!(entity.compression(), Some("Deflated"));
}

#[test]
fn zip_metadata_agrees_with_the_listing() {
    let bytes = sample();
    let a = archive(&bytes);
    let mut events = Vec::new();
    let listed = a.list(&ListOptions::default(), &mut events).unwrap();
    let m = a.metadata(&mut events).unwrap();
    assert_eq!(m.entries.len(), listed.len());
    for (x, y) in m.entries.iter().zip(listed.iter()) {
        assert_eq!(x.name(), y.name());
        assert_eq!(x.size(), y.size());
        assert_eq!(x.fstype(), y.fstype());
    }
    assert_eq!(m.total_size, 444 + 1510 + 6);
    assert_eq!(m.compressed_size, bytes.len() as u64);
    assert_eq!(m.compression, None);
    match m.additional {
        Some(hezi::archive::AdditionalMetadata::Zip { comment }) => {
            assert_eq!(comment, Some("a comment".to_string()))
        }
        other => panic!("expected the zip comment, got {:?}", other),
    }
}

#[test]
fn zip_extract_unpacks_files_before_directories() {
    let bytes = sample();
    let mut events = Vec::new();
    let options = ExtractOptions {
        destination: "out".to_string(),
        ..ExtractOptions::default()
    };
    let written = archive(&bytes)
        .extract(&options, &Vec::new(), &mut events)
        .unwrap();
    let names: Vec<&str> = written.iter().map(|w| w.name.as_str()).collect();
    assert_eq!(
        names,
        vec![
            "test1/dir1/file2.txt",
            "test1/file1.txt",
            ".hidden",
            "test1/dir1/"
        ]
    );
    assert_eq!(written[0].path, "out/test1/dir1/file2.txt");
    assert_eq!(written[0].content, vec![b'a'; 444]);
    assert_eq!(written[1].content, vec![b'b'; 1510]);
    assert_eq!(written[3].fstype, ArchiveFileEntityType::Directory);
    assert!(written.iter().all(|w| !w.replaces));
    assert_eq!(events.len(), 5);
    assert!(matches!(&events[0], ArchiveEvent::Extracting(n, Some(444)) if n == "test1/dir1/file2.txt"));
    assert!(matches!(&events[3], ArchiveEvent::Created(p, ArchiveFileEntityType::Directory) if p == "out/test1/dir1/"));
    assert!(matches!(&events[4], ArchiveEvent::DoneExtracting(s, d) if s == "sample.zip" && d == "out"));
}

#[test]
fn zip_extract_skips_what_exists_unless_told_to_overwrite() {
    let bytes = sample();
    let existing = vec!["test1/file1.txt".to_string()];
    let mut events = Vec::new();
    let options = ExtractOptions {
        destination: "out".to_string(),
        ..ExtractOptions::default()
    };
    let written = archive(&bytes)
        .extract(&options, &existing, &mut events)
        .unwrap();
    assert!(written.iter().all(|w| w.name != "test1/file1.txt"));
    assert!(events.iter().any(|e| matches!(e, ArchiveEvent::Skipped(n, SkipReason::AlreadyExists) if n == "test1/file1.txt")));

    let mut events = Vec::new();
    let options = ExtractOptions {
        destination: "out".to_string(),
        overwrite: true,
        ..ExtractOptions::default()
    };
    let written = archive(&bytes)
        .extract(&options, &existing, &mut events)
        .unwrap();
    let replaced: Vec<&str> = written
        .iter()
        .filter(|w| w.replaces)
        .map(|w| w.name.as_str())
        .collect();
    assert_eq!(replaced, vec!["test1/file1.txt"]);
    assert!(!events.iter().any(|e| matches!(e, ArchiveEvent::Skipped(_, _))));
}

#[test]
fn zip_extract_of_a_subset_writes_only_that_path() {
    let bytes = sample();
    let mut events = Vec::new();
    let options = ExtractOptions {
        destination: "out".to_string(),
        files: Some(vec!["test1/dir1/file2.txt".to_string()]),
        ..ExtractOptions::default()
    };
    let written = archive(&bytes)
        .extract(&options, &Vec::new(), &mut events)
        .unwrap();
    let files: Vec<&str> = written
        .iter()
        .filter(|w| w.fstype != ArchiveFileEntityType::Directory)
        .map(|w| w.name.as_str())
        .collect();
    assert_eq!(files, vec!["test1/dir1/file2.txt"]);
    let dirs: Vec<&str> = written
        .iter()
        .filter(|w| w.fstype == ArchiveFileEntityType::Directory)
        .map(|w| w.name.as_str())
        .collect();
    assert_eq!(dirs, vec!["test1/dir1/"]);

    let mut events = Vec::new();
    let options = ExtractOptions {
        files: Some(vec!["TEST1/dir1/file2.txt".to_string()]),
        ..ExtractOptions::default()
    };
    let written = archive(&bytes)
        .extract(&options, &Vec::new(), &mut events)
        .unwrap();
    assert!(written.is_empty());
    assert_eq!(events.len(), 1);
}

#[test]
fn zip_extract_can_leave_hidden_entries() {
    let bytes = sample();
    let mut events = Vec::new();
    let options = ExtractOptions {
        show_hidden: false,
        ..ExtractOptions::default()
    };
    let written = archive(&bytes)
        .extract(&options, &Vec::new(), &mut events)
        .unwrap();
    assert!(written.iter().all(|w| w.name != ".hidden"));
    assert!(events.iter().any(|e| matches!(e, ArchiveEvent::Skipped(n, SkipReason::Hidden) if n == ".hidden")));
}

#[test]
fn zip_open_reads_one_entry() {
    let bytes = sample();
    let out = archive(&bytes)
        .open(&OpenOptions {
            path: "test1/file1.txt".to_string(),
            password: None,
        })
        .unwrap();
    assert_eq!(out, vec![b'b'; 1510]);
}

#[test]
fn zip_open_of_an_absent_path_is_entry_not_found() {
    let bytes = sample();
    match archive(&bytes).open(&OpenOptions {
        path: "test1/File1.txt".to_string(),
        password: None,
    }) {
        Err(ArchiveError::EntryNotFound(p)) => assert_eq!(p, "test1/File1.txt"),
        other => panic!("expected entry not found, got {:?}", other),
    }
}

#[test]
fn bytes_that_are_no_zip_are_a_zip_error() {
    let bytes = vec![0u8; 100];
    let mut events = Vec::new();
    assert!(matches!(
        archive(&bytes).list(&ListOptions::default(), &mut events),
        Err(ArchiveError::Zip(_))
    ));
    assert!(matches!(
        archive(&bytes).open(&OpenOptions {
            path: "a".to_string(),
            password: None
        }),
        Err(ArchiveError::Zip(_))
    ));
    assert!(events.is_empty());
}

fn crc_table() -> [u32; 256] {
    let mut table = [0u32; 256];
    for i in 0..256u32 {
        let mut c = i;
        for _ in 0..8 {
            c = if c & 1 != 0 { 0xedb8_8320 ^ (c >> 1) } else { c >> 1 };
        }
        table[i as usize] = c;
    }
    table
}

struct Keys {
    table: [u32; 256],
    k: [u32; 3],
}

impl Keys {
    fn new(password: &[u8]) -> Keys {
        let mut keys = Keys {
            table: crc_table(),
            k: [0x1234_5678, 0x2345_6789, 0x3456_7890],
        };
        for b in password {
            keys.update(*b);
        }
        keys
    }

    fn crc(&self, old: u32, b: u8) -> u32 {
        self.table[((old ^ b as u32) & 0xff) as usize] ^ (old >> 8)
    }

    fn update(&mut self, plain: u8) {
        self.k[0] = self.crc(self.k[0], plain);
        self.k[1] = (self.k[1].wrapping_add(self.k[0] & 0xff))
            .wrapping_mul(134_775_813)
            .wrapping_add(1);
        self.k[2] = self.crc(self.k[2], (self.k[1] >> 24) as u8);
    }

    fn encrypt(&mut self, plain: u8) -> u8 {
        let t = (self.k[2] | 3) as u16;
        let stream = (t.wrapping_mul(t ^ 1) >> 8) as u8;
        self.update(plain);
        plain ^ stream
    }
}

/// A zip archive with one stored entry, encrypted the traditional way.
fn encrypted(name: &str, content: &[u8], password: &str) -> Vec<u8> {
    let mut crc = flate2::Crc::new();
    crc.update(content);
    let crc = crc.sum();
    let mut keys = Keys::new(password.as_bytes());
    let mut data = Vec::new();
    for i in 0..12u8 {
        let plain = if i == 11 { (crc >> 24) as u8 } else { i };
        data.push(keys.encrypt(plain));
    }
    for b in content {
        data.push(keys.encrypt(*b));
    }

    let mut out = Vec::new();
    let header = |out: &mut Vec<u8>| {
        out.extend_from_slice(&20u16.to_le_bytes());
        out.extend_from_slice(&1u16.to_le_bytes());
        out.extend_from_slice(&0u16.to_le_bytes());
        out.extend_from_slice(&0u16.to_le_bytes());
        out.extend_from_slice(&0x5821u16.to_le_bytes());
        out.extend_from_slice(&crc.to_le_bytes());
        out.extend_from_slice(&(data.len() as u32).to_le_bytes());
        out.extend_from_slice(&(content.len() as u32).to_le_bytes());
        out.extend_from_slice(&(name.len() as u16).to_le_bytes());
        out.extend_from_slice(&0u16.to_le_bytes());
    };
    out.extend_from_slice(&0x0403_4b50u32.to_le_bytes());
    header(&mut out);
    out.extend_from_slice(name.as_bytes());
    out.extend_from_slice(&data);

    let directory = out.len() as u32;
    out.extend_from_slice(&0x0201_4b50u32.to_le_bytes());
    out.extend_from_slice(&20u16.to_le_bytes());
    header(&mut out);
    out.extend_from_slice(&0u16.to_le_bytes());
    out.extend_from_slice(&0u16.to_le_bytes());
    out.extend_from_slice(&0u16.to_le_bytes());
    out.extend_from_slice(&0u32.to_le_bytes());
    out.extend_from_slice(&0u32.to_le_bytes());
    out.extend_from_slice(name.as_bytes());
    let size = out.len() as u32 - directory;

    out.extend_from_slice(&0x0605_4b50u32.to_le_bytes());
    out.extend_from_slice(&0u16.to_le_bytes());
    out.extend_from_slice(&0u16.to_le_bytes());
    out.extend_from_slice(&1u16.to_le_bytes());
    out.extend_from_slice(&1u16.to_le_bytes());
    out.extend_from_slice(&size.to_le_bytes());
    out.extend_from_slice(&directory.to_le_bytes());
    out.extend_from_slice(&0u16.to_le_bytes());
    out
}

#[test]
fn encrypted_entries_need_the_right_password() {
    let bytes = encrypted("secret.txt", b"top secret", "hunter2");
    let a = archive(&bytes);

    let mut events = Vec::new();
    let listed = a.list(&ListOptions::default(), &mut events).unwrap();
    assert!(events.is_empty());
    assert_eq!(listed.len(), 1);
    assert_eq!(listed[0].name(), "secret.txt");
    assert_eq!(listed[0].size(), Some(10));
    assert_eq!(listed[0].compressed_size(), Some(22));

    let open = |password: Option<&str>| {
        a.open(&OpenOptions {
            path: "secret.txt".to_string(),
            password: password.map(|p| p.to_string()),
        })
    };
    assert_eq!(open(Some("hunter2")).unwrap(), b"top secret".to_vec());
    assert!(matches!(open(Some("wrong")), Err(ArchiveError::Password(_))));
    assert!(matches!(open(None), Err(ArchiveError::Zip(_))));

    let mut events = Vec::new();
    let options = ExtractOptions {
        password: Some("hunter2".to_string()),
        ..ExtractOptions::default()
    };
    let written = a.extract(&options, &Vec::new(), &mut events).unwrap();
    assert_eq!(written.len(), 1);
    assert_eq!(written[0].content, b"top secret".to_vec());

    let mut events = Vec::new();
    let options = ExtractOptions {
        password: Some("wrong".to_string()),
        ..ExtractOptions::default()
    };
    let written = a.extract(&options, &Vec::new(), &mut events).unwrap();
    assert!(written.is_empty());
    assert!(matches!(
        &events[1],
        ArchiveEvent::FailedToReadEntry(n, ArchiveError::Password(_)) if n == "secret.txt"
    ));
}

#[test]
fn a_password_that_is_not_needed_does_no_harm() {
    let bytes = sample();
    let out = archive(&bytes)
        .open(&OpenOptions {
            path: "test1/file1.txt".to_string(),
            password: Some("unused".to_string()),
        })
        .unwrap();
    assert_eq!(out, vec![b'b'; 1510]);
}

#[test]
fn a_comment_that_is_no_text_is_left_out() {
    let mut zip = zip::ZipWriter::new(std::io::Cursor::new(Vec::new()));
    zip.start_file("a", zip::write::FileOptions::default())
        .unwrap();
    zip.set_raw_comment(vec![0xff, 0xfe]);
    let bytes = zip.finish().unwrap().into_inner();
    let m = archive(&bytes).metadata(&mut Vec::new()).unwrap();
    match m.additional {
        Some(hezi::archive::AdditionalMetadata::Zip { comment }) => assert_eq!(comment, None),
        other => panic!("expected the zip side channel, got {:?}", other),
    }
}

/// A zip archive with one stored entry that is not encrypted, with this
/// extra field in the central directory.
fn stored(name: &str, content: &[u8], extra: &[u8]) -> Vec<u8> {
    let mut crc = flate2::Crc::new();
    crc.update(content);
    let crc = crc.sum();
    let mut out = Vec::new();
    let header = |out: &mut Vec<u8>, extra_len: u16| {
        out.extend_from_slice(&20u16.to_le_bytes());
        out.extend_from_slice(&0u16.to_le_bytes());
        out.extend_from_slice(&0u16.to_le_bytes());
        out.extend_from_slice(&0u16.to_le_bytes());
        out.extend_from_slice(&0x5821u16.to_le_bytes());
        out.extend_from_slice(&crc.to_le_bytes());
        out.extend_from_slice(&(content.len() as u32).to_le_bytes());
        out.extend_from_slice(&(content.len() as u32).to_le_bytes());
        out.extend_from_slice(&(name.len() as u16).to_le_bytes());
        out.extend_from_slice(&extra_len.to_le_bytes());
    };
    out.extend_from_slice(&0x0403_4b50u32.to_le_bytes());
    header(&mut out, 0);
    out.extend_from_slice(name.as_bytes());
    out.extend_from_slice(content);

    let directory = out.len() as u32;
    out.extend_from_slice(&0x0201_4b50u32.to_le_bytes());
    out.extend_from_slice(&20u16.to_le_bytes());
    header(&mut out, extra.len() as u16);
    out.extend_from_slice(&0u16.to_le_bytes());
    out.extend_from_slice(&0u16.to_le_bytes());
    out.extend_from_slice(&0u16.to_le_bytes());
    out.extend_from_slice(&0u32.to_le_bytes());
    out.extend_from_slice(&0u32.to_le_bytes());
    out.extend_from_slice(name.as_bytes());
    out.extend_from_slice(extra);
    let size = out.len() as u32 - directory;

    out.extend_from_slice(&0x0605_4b50u32.to_le_bytes());
    out.extend_from_slice(&0u16.to_le_bytes());
    out.extend_from_slice(&0u16.to_le_bytes());
    out.extend_from_slice(&1u16.to_le_bytes());
    out.extend_from_slice(&1u16.to_le_bytes());
    out.extend_from_slice(&size.to_le_bytes());
    out.extend_from_slice(&directory.to_le_bytes());
    out.extend_from_slice(&0u16.to_le_bytes());
    out
}

fn aes_extra(inner_method: u16) -> Vec<u8> {
    let mut extra = vec![0x01, 0x99, 0x07, 0x00, 0x02, 0x00, 0x41, 0x45, 0x03];
    extra.extend_from_slice(&inner_method.to_le_bytes());
    extra
}

#[test]
fn entries_with_the_aes_marker_are_refused_and_not_read() {
    let open = |bytes: &Vec<u8>, password: Option<&str>| {
        archive(bytes).open(&OpenOptions {
            path: "a.txt".to_string(),
            password: password.map(|p| p.to_string()),
        })
    };
    let plain = stored("a.txt", b"abc", &[]);
    assert_eq!(open(&plain, None).unwrap(), b"abc".to_vec());

    let marked = stored("a.txt", b"abc", &aes_extra(0));
    let listed = archive(&marked)
        .list(&ListOptions::default(), &mut Vec::new())
        .unwrap();
    assert_eq!(listed.len(), 1);
    assert!(matches!(
        open(&marked, None),
        Err(ArchiveError::UnsupportedCompression(hezi::archive::ArchiveCompression::Aes))
    ));
    assert!(matches!(
        open(&marked, Some("pw")),
        Err(ArchiveError::UnsupportedCompression(hezi::archive::ArchiveCompression::Aes))
    ));

    let framed = stored("a.txt", &[b'x'; 28], &aes_extra(0));
    assert!(matches!(open(&framed, None), Err(ArchiveError::Password(_))));
    assert!(matches!(open(&framed, Some("pw")), Err(ArchiveError::Password(_))));

    let twice = stored("a.txt", b"abc", &aes_extra(99));
    assert!(matches!(
        open(&twice, None),
        Err(ArchiveError::UnsupportedCompression(_))
    ));
    assert!(matches!(
        open(&twice, Some("pw")),
        Err(ArchiveError::UnsupportedCompression(_))
    ));

    let mut events = Vec::new();
    let written = archive(&marked)
        .extract(&ExtractOptions::default(), &Vec::new(), &mut events)
        .unwrap();
    assert!(written.is_empty());
    assert!(matches!(
        &events[1],
        ArchiveEvent::FailedToReadEntry(n, ArchiveError::UnsupportedCompression(_)) if n == "a.txt"
    ));
}

#[test]
fn zip_entries_whose_names_leave_the_destination_are_never_placed() {
    for name in ["../evil.txt", "/etc/evil.txt", "a/../../evil.txt"] {
        let mut zip = zip::ZipWriter::new(std::io::Cursor::new(Vec::new()));
        let options = zip::write::FileOptions::default();
        zip.start_file(name, options).unwrap();
        zip.write_all(b"evil").unwrap();
        zip.start_file("good.txt", options).unwrap();
        zip.write_all(b"good").unwrap();
        let bytes = zip.finish().unwrap().into_inner();
        let mut events = Vec::new();
        let options = ExtractOptions {
            destination: "out".to_string(),
            ..ExtractOptions::default()
        };
        let written = archive(&bytes)
            .extract(&options, &Vec::new(), &mut events)
            .unwrap();
        let paths: Vec<&str> = written.iter().map(|w| w.path.as_str()).collect();
        assert_eq!(paths, vec!["out/good.txt"]);
        assert!(matches!(&events[0], ArchiveEvent::FailedToReadEntry(_, _)));
    }
}

#[test]
fn an_extra_field_that_only_looks_marked_does_not_hide_the_entry() {
    let extra = [0xfe, 0xca, 0x02, 0x00, 0x01, 0x99];
    let content = [b'y'; 28];
    let bytes = stored("a.txt", &content, &extra);
    for password in [None, Some("pw".to_string())] {
        let out = archive(&bytes)
            .open(&OpenOptions {
                path: "a.txt".to_string(),
                password,
            })
            .unwrap();
        assert_eq!(out, content.to_vec());
    }
    let mut events = Vec::new();
    let written = archive(&bytes)
        .extract(&ExtractOptions::default(), &Vec::new(), &mut events)
        .unwrap();
    assert_eq!(written.len(), 1);
    assert_eq!(written[0].content, content.to_vec());

    let short = stored("a.txt", &content[..27], &extra);
    assert!(matches!(
        archive(&short).open(&OpenOptions {
            path: "a.txt".to_string(),
            password: None,
        }),
        Err(ArchiveError::UnsupportedCompression(_))
    ));
}

fn stamped(modified: u64) -> hezi::archive::CreateOptions {
    hezi::archive::CreateOptions {
        destination: "out.zip".to_string(),
        source: "/src".to_string(),
        files: vec![
            hezi::archive::SourceFile {
                path: "/src/dir".to_string(),
                fstype: ArchiveFileEntityType::Directory,
                content: Vec::new(),
                modified,
                mode: 0o755,
            },
            hezi::archive::SourceFile {
                path: "/src/dir/a.txt".to_string(),
                fstype: ArchiveFileEntityType::File,
                content: b"alpha".to_vec(),
                modified,
                mode: 0o644,
            },
        ],
        password: None,
        archive_type: hezi::archive::ArchiveType::Zip,
        archive_compression: Some(hezi::archive::ArchiveCompression::Deflate),
        overwrite: false,
        include_hidden: true,
    }
}

fn stamps_of(bytes: &Vec<u8>) -> Vec<i64> {
    archive(bytes)
        .list(&ListOptions::default(), &mut Vec::new())
        .unwrap()
        .iter()
        .map(|e| e.last_modified().unwrap().seconds)
        .collect()
}

#[test]
fn created_zip_entries_carry_the_time_of_their_input() {
    let (_, bytes) = ZipArchive::create(&stamped(1_700_000_001), &mut Vec::new()).unwrap();
    assert_eq!(stamps_of(&bytes), vec![1_700_000_000, 1_700_000_000]);
    let (_, bytes) = ZipArchive::create(&stamped(315_532_800), &mut Vec::new()).unwrap();
    assert_eq!(stamps_of(&bytes), vec![315_532_800, 315_532_800]);
    let (_, bytes) = ZipArchive::create(&stamped(4_354_819_199), &mut Vec::new()).unwrap();
    assert_eq!(stamps_of(&bytes), vec![4_354_819_198, 4_354_819_198]);
}

#[test]
fn times_outside_the_calendar_of_zip_become_its_first_moment() {
    for modified in [0, 315_532_799, 4_354_819_200, u64::MAX] {
        let (_, bytes) = ZipArchive::create(&stamped(modified), &mut Vec::new()).unwrap();
        assert_eq!(stamps_of(&bytes), vec![315_532_800, 315_532_800]);
    }
}

#[test]
fn a_zip_archive_depends_on_its_options_alone() {
    let (first, bytes) = ZipArchive::create(&stamped(1_700_000_000), &mut Vec::new()).unwrap();
    let (second, again) = ZipArchive::create(&stamped(1_700_000_000), &mut Vec::new()).unwrap();
    assert_eq!(bytes, again);
    assert!(!bytes.is_empty());
    assert_eq!(first.compressed_size, bytes.len() as u64);
    assert_eq!(second.compressed_size, bytes.len() as u64);
    let (_, other) = ZipArchive::create(&stamped(1_700_000_002), &mut Vec::new()).unwrap();
    assert_ne!(bytes, other);
}
