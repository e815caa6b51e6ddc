use hezi::archive::{
    ArchiveCompression, ArchiveError, ArchiveEvent, ArchiveFileEntityType, Archived,
    AsTarArchiveResult,
    CreateOptions, DataSource, ExtractOptions, ListOptions, OpenOptions, SourceFile, TarArchive,
    ArchiveType,
};
use std::io::Write;

fn plain_tar() -> Vec<u8> {
    let mut builder = tar::Builder::new(Vec::new());

    let mut dir = tar::Header::new_gnu();
    dir.set_entry_type(tar::EntryType::Directory);
    dir.set_size(0);
    dir.set_mode(0o755);
    dir.set_mtime(1_696_178_032);
    builder
        .append_data(&mut dir, "test1/dir1/", std::io::empty())
        .unwrap();

    let mut file = tar::Header::new_gnu();
    file.set_entry_type(tar::EntryType::Regular);
    file.set_size(444);
    file.set_mode(0o644);
    file.set_mtime(1_696_178_844);
    builder
        .append_data(&mut file, "test1/dir1/file2.txt", &vec![b'a'; 444][..])
        .unwrap();

    let mut file = tar::Header::new_gnu();
    file.set_entry_type(tar::EntryType::Regular);
    file.set_size(1510);
    file.set_mode(0o600);
    file.set_mtime(1_696_178_812);
    builder
        .append_data(&mut file, "test1/file1.txt", &vec![b'b'; 1510][..])
        .unwrap();

    let mut link = tar::Header::new_gnu();
    link.set_entry_type(tar::EntryType::Symlink);
    link.set_size(0);
    link.set_mode(0o777);
    link.set_mtime(0);
    builder
        .append_link(&mut link, "test1/link", "file1.txt")
        .unwrap();

    builder.into_inner().unwrap()
}

fn gzipped(bytes: &[u8]) -> Vec<u8> {
    let mut e = flate2::write::GzEncoder::new(Vec::new(), flate2::Compression::default());
    e.write_all(bytes).unwrap();
    e.finish().unwrap()
}

#[test]
fn tar_lists_entries_in_the_order_of_the_stream() {
    let bytes = gzipped(&plain_tar());
    let archive = TarArchive::of(DataSource::file("test1.tar.gz", &bytes)).unwrap();
    let mut events = Vec::new();
    let entities = archive.list(&ListOptions::default(), &mut events).unwrap();
    assert!(events.is_empty());

    assert_eq!(entities.len(), 4);

    let entity = &entities[0];
    assert_eq!(entity.name(), "test1/dir1/");
    assert_eq!(entity.size(), None);
    assert_eq!(entity.compressed_size(), None);
    assert_eq!(entity.fstype(), ArchiveFileEntityType::Directory);
    assert_eq!(entity.compression(), Some("gzip"));
    assert_eq!(entity.last_modified().unwrap().seconds, 1_696_178_032);

    let entity = &entities[1];
    assert_eq!(entity.name(), "test1/dir1/file2.txt");
    assert_eq!(entity.size(), Some(444));
    assert_eq!(entity.compressed_size(), Some(444));
    assert_eq!(entity.fstype(), ArchiveFileEntityType::File);
    assert_eq!(entity.compression(), Some("gzip"));
    assert_eq!(entity.last_modified().unwrap().seconds, 1_696_178_844);

    let entity = &entities[2];
    assert_eq!(entity.name(), "test1/file1.txt");
    assert_eq!(entity.size(), Some(1510));
    assert_eq!(entity.compressed_size(), Some(1510));
    assert_eq!(entity.fstype(), ArchiveFileEntityType::File);
    assert_eq!(entity.last_modified().unwrap().seconds, 1_696_178_812);

    let entity = &entities[3];
    assert_eq!(entity.name(), "test1/link");
    assert_eq!(entity.fstype(), ArchiveFileEntityType::SymbolicLink);
    assert_eq!(entity.size(), None);
}

#[test]
fn tar_metadata_sums_the_files() {
    let bytes = plain_tar();
    let archive = TarArchive::of(DataSource::stream(&bytes)).unwrap();
    let mut events = Vec::new();
    let m = archive.metadata(&mut events).unwrap();
    assert_eq!(m.entries.len(), 4);
    assert_eq!(m.total_size, 444 + 1510);
    assert_eq!(m.compressed_size, 444 + 1510);
    assert_eq!(m.compression, Some(ArchiveCompression::Uncompressed));
    assert!(m.additional.is_none());
}

#[test]
fn gzipped_tar_extracts_in_one_pass_and_resolves_links() {
    let bytes = gzipped(&plain_tar());
    let archive = TarArchive::of(DataSource::file("t.tgz", &bytes)).unwrap();
    let options = ExtractOptions {
        destination: "out/".to_string(),
        ..ExtractOptions::default()
    };
    let mut events = Vec::new();
    let written = archive.extract(&options, &Vec::new(), &mut events).unwrap();
    let names: Vec<&str> = written.iter().map(|w| w.name.as_str()).collect();
    assert_eq!(
        names,
        vec![
            "test1/dir1/file2.txt",
            "test1/file1.txt",
            "test1/link",
            "test1/dir1/"
        ]
    );
    assert_eq!(written[0].content, vec![b'a'; 444]);
    assert_eq!(written[0].mode, Some(0o644));
    assert_eq!(written[1].content, vec![b'b'; 1510]);
    assert_eq!(written[1].path, "out/test1/file1.txt");
    assert_eq!(written[2].fstype, ArchiveFileEntityType::SymbolicLink);
    assert_eq!(
        written[2].link_target,
        Some("out/test1/file1.txt".to_string())
    );
    assert!(matches!(events.last(), Some(ArchiveEvent::DoneExtracting(s, d)) if s == "t.tgz" && d == "out/"));
}

#[test]
fn tar_open_reads_one_entry_and_misses_absent_ones() {
    let bytes = gzipped(&plain_tar());
    let archive = TarArchive::of(DataSource::stream(&bytes)).unwrap();
    let out = archive
        .open(&OpenOptions {
            path: "test1/dir1/file2.txt".to_string(),
            password: None,
        })
        .unwrap();
    assert_eq!(out, vec![b'a'; 444]);
    match archive.open(&OpenOptions {
        path: "test1/dir1/file3.txt".to_string(),
        password: None,
    }) {
        Err(ArchiveError::EntryNotFound(p)) => assert_eq!(p, "test1/dir1/file3.txt"),
        other => panic!("expected entry not found, got {:?}", other),
    }
}

#[test]
fn bytes_that_are_not_recognised_are_no_tar() {
    let bytes = vec![7u8; 40];
    let archive = TarArchive::of(DataSource::stream(&bytes)).unwrap();
    let mut events = Vec::new();
    assert!(matches!(
        archive.list(&ListOptions::default(), &mut events),
        Err(ArchiveError::UnknownArchiveType(_))
    ));
    assert!(events.is_empty());
}

fn inputs() -> Vec<SourceFile> {
    vec![
        SourceFile {
            path: "/src/tree".to_string(),
            fstype: ArchiveFileEntityType::Directory,
            content: Vec::new(),
            modified: 1_700_000_000,
            mode: 0o755,
        },
        SourceFile {
            path: "/src/tree/a.txt".to_string(),
            fstype: ArchiveFileEntityType::File,
            content: b"alpha".to_vec(),
            modified: 1_700_000_001,
            mode: 0o644,
        },
        SourceFile {
            path: "/src/tree/sub/b.txt".to_string(),
            fstype: ArchiveFileEntityType::File,
            content: vec![b'z'; 3000],
            modified: 1_700_000_002,
            mode: 0o600,
        },
        SourceFile {
            path: "/src/tree/.secret".to_string(),
            fstype: ArchiveFileEntityType::File,
            content: b"hidden".to_vec(),
            modified: 1_700_000_003,
            mode: 0o600,
        },
    ]
}

fn create_options(destination: &str, compression: Option<ArchiveCompression>) -> CreateOptions {
    CreateOptions {
        destination: destination.to_string(),
        source: "/src/tree".to_string(),
        files: inputs(),
        password: None,
        archive_type: ArchiveType::Tar,
        archive_compression: compression,
        overwrite: false,
        include_hidden: true,
    }
}

#[test]
fn tar_round_trip_under_every_codec() {
    for compression in [
        ArchiveCompression::Uncompressed,
        ArchiveCompression::Gzip,
        ArchiveCompression::Deflate,
        ArchiveCompression::Bzip2,
        ArchiveCompression::Lzma,
        ArchiveCompression::Zstd,
    ] {
        let options = create_options("out.tar", Some(compression.clone()));
        let mut events = Vec::new();
        let (result, bytes) = TarArchive::create(&options, &mut events).unwrap();
        assert_eq!(result.path, "out.tar");
        assert_eq!(result.total_size, 5 + 3000 + 6);
        assert_eq!(result.compressed_size, bytes.len() as u64);
        assert_eq!(events.len(), 4);
        assert!(matches!(&events[0], ArchiveEvent::Created(n, ArchiveFileEntityType::Directory) if n == "."));
        assert!(matches!(&events[1], ArchiveEvent::Created(n, ArchiveFileEntityType::File) if n == "a.txt"));

        if compression == ArchiveCompression::Deflate {
            let plain = hezi::archive::ArchiveCodec::get_reader(&bytes, &compression).unwrap();
            assert_eq!(&plain[257..262], b"ustar");
            continue;
        }
        let archive = TarArchive::of(DataSource::stream(&bytes)).unwrap();
        let mut events = Vec::new();
        let listed = archive.list(&ListOptions::default(), &mut events).unwrap();
        let names: Vec<&str> = listed.iter().map(|e| e.name()).collect();
        assert_eq!(names, vec![".", "a.txt", "sub/b.txt", ".secret"]);
        let written = archive
            .extract(&ExtractOptions::default(), &Vec::new(), &mut events)
            .unwrap();
        assert_eq!(written[0].content, b"alpha".to_vec());
        assert_eq!(written[1].content, vec![b'z'; 3000]);
        assert_eq!(written[2].content, b"hidden".to_vec());
        assert_eq!(written[0].mode, Some(0o644));
    }
}

#[test]
fn tar_create_needs_a_compression_it_supports() {
    let mut events = Vec::new();
    assert!(matches!(
        TarArchive::create(&create_options("a.tar", None), &mut events),
        Err(ArchiveError::CompressionMethodRequired)
    ));
    match TarArchive::create(
        &create_options("a.tar", Some(ArchiveCompression::Aes)),
        &mut events,
    ) {
        Err(ArchiveError::UnsupportedCompression(c)) => assert_eq!(c, ArchiveCompression::Aes),
        other => panic!("expected unsupported compression, got {:?}", other.map(|m| m.0)),
    }
    assert!(events.is_empty());
}

#[test]
fn tar_create_takes_hidden_files_whatever_the_options_say() {
    let mut options = create_options("a.tar", Some(ArchiveCompression::Uncompressed));
    options.include_hidden = false;
    let mut events = Vec::new();
    let (result, bytes) = TarArchive::create(&options, &mut events).unwrap();
    assert_eq!(result.total_size, 5 + 3000 + 6);
    assert!(matches!(
        &events[3],
        ArchiveEvent::Created(n, ArchiveFileEntityType::File) if n == ".secret"
    ));
    let archive = TarArchive::of(DataSource::stream(&bytes)).unwrap();
    let listed = archive
        .list(&ListOptions::default(), &mut Vec::new())
        .unwrap();
    assert_eq!(listed.len(), 4);
    assert_eq!(listed[3].name(), ".secret");
}

#[test]
fn tar_entries_of_other_types_are_skipped() {
    let mut builder = tar::Builder::new(Vec::new());
    let mut fifo = tar::Header::new_gnu();
    fifo.set_entry_type(tar::EntryType::Fifo);
    fifo.set_size(0);
    fifo.set_mode(0o644);
    builder
        .append_data(&mut fifo, "pipe", std::io::empty())
        .unwrap();
    let bytes = builder.into_inner().unwrap();
    let archive = TarArchive::of(DataSource::stream(&bytes)).unwrap();
    let mut events = Vec::new();
    let listed = archive.list(&ListOptions::default(), &mut events).unwrap();
    assert_eq!(listed[0].fstype(), ArchiveFileEntityType::Unknown);
    let written = archive
        .extract(&ExtractOptions::default(), &Vec::new(), &mut events)
        .unwrap();
    assert!(written.is_empty());
    assert!(matches!(
        &events[0],
        ArchiveEvent::Skipped(n, hezi::archive::SkipReason::UnknownType) if n == "pipe"
    ));
}

#[test]
fn a_truncated_tar_reports_the_entry_it_cannot_read() {
    let mut bytes = plain_tar();
    bytes.truncate(512 + 512 + 100);
    bytes[600] ^= 0xff;
    let archive = TarArchive::of(DataSource::stream(&bytes)).unwrap();
    let mut events = Vec::new();
    let listed = archive.list(&ListOptions::default(), &mut events).unwrap();
    assert_eq!(listed.len(), 1);
    assert_eq!(listed[0].name(), "test1/dir1/");
    assert_eq!(events.len(), 1);
    assert!(matches!(
        &events[0],
        ArchiveEvent::FailedToReadEntry(n, ArchiveError::Tar(_)) if n == "???"
    ));
}

#[test]
fn names_that_leave_the_archive_are_a_tar_error() {
    let mut options = create_options("a.tar", Some(ArchiveCompression::Uncompressed));
    options.files = vec![SourceFile {
        path: "../escape.txt".to_string(),
        fstype: ArchiveFileEntityType::File,
        content: b"x".to_vec(),
        modified: 0,
        mode: 0o644,
    }];
    let mut events = Vec::new();
    assert!(matches!(
        TarArchive::create(&options, &mut events),
        Err(ArchiveError::Tar(_))
    ));
}

#[test]
fn failures_of_the_tar_crate_become_tar_errors() {
    let ok: std::io::Result<u8> = Ok(7);
    assert_eq!(ok.into_tar_archive_result().unwrap(), 7);
    let failed: std::io::Result<u8> =
        Err(std::io::Error::new(std::io::ErrorKind::Other, "boom"));
    match failed.into_tar_archive_result() {
        Err(ArchiveError::Tar(e)) => assert_eq!(e.to_string(), "boom"),
        other => panic!("expected a tar error, got {:?}", other),
    }
}

#[test]
fn tar_entries_whose_names_leave_the_destination_are_never_placed() {
    let mut bytes = Vec::new();
    for name in ["../evil.txt", "good.txt", "a/../../evil2.txt", "/abs.txt"] {
        let mut header = tar::Header::new_gnu();
        header.as_mut_bytes()[..name.len()].copy_from_slice(name.as_bytes());
        header.set_entry_type(tar::EntryType::Regular);
        header.set_size(4);
        header.set_mode(0o644);
        header.set_cksum();
        bytes.extend_from_slice(header.as_bytes());
        bytes.extend_from_slice(b"data");
        bytes.extend_from_slice(&[0u8; 508]);
    }
    bytes.extend_from_slice(&[0u8; 1024]);
    let archive = TarArchive::of(DataSource::stream(&bytes)).unwrap();
    let mut events = Vec::new();
    let listed = archive.list(&ListOptions::default(), &mut events).unwrap();
    assert_eq!(listed.len(), 4);
    let options = ExtractOptions {
        destination: "out".to_string(),
        ..ExtractOptions::default()
    };
    let written = archive.extract(&options, &Vec::new(), &mut events).unwrap();
    let paths: Vec<&str> = written.iter().map(|w| w.path.as_str()).collect();
    assert_eq!(paths, vec!["out/good.txt"]);
    let refused: Vec<&str> = events
        .iter()
        .filter_map(|e| match e {
            ArchiveEvent::FailedToReadEntry(n, ArchiveError::InvalidDataSource(_)) => {
                Some(n.as_str())
            }
            _ => None,
        })
        .collect();
    assert_eq!(refused, vec!["../evil.txt", "a/../../evil2.txt", "/abs.txt"]);
}
