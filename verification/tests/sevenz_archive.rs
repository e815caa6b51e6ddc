use hezi::archive::{
    ArchiveError, ArchiveEvent, ArchiveFileEntityType, ArchiveType, Archived, CreateOptions,
    DataSource, ExtractOptions, ListOptions, OpenOptions, SevenZArchive, SevenZBlock,
    SevenZEntry, SevenZStreams, SevenZVolume, SourceFile,
};

fn read_volume(bytes: &[u8], password: &str) -> SevenZVolume {
    let password = sevenz_rust::Password::from(password);
    let mut source = std::io::Cursor::new(bytes);
    let headers =
        sevenz_rust::Archive::read(&mut source, bytes.len() as u64, password.as_slice()).unwrap();
    let files = headers
        .files
        .iter()
        .enumerate()
        .map(|(i, e)| SevenZEntry {
            name: e.name.clone(),
            has_stream: e.has_stream,
            is_directory: e.is_directory,
            size: e.size,
            has_last_modified_date: e.has_last_modified_date,
            last_modified: e.last_modified_date.to_unix_time(),
            folder: headers.stream_map.file_folder_index[i],
        })
        .collect();
    let mut blocks = Vec::new();
    for (at, folder) in headers.folders.iter().enumerate() {
        let coders = folder
            .ordered_coder_iter()
            .map(|(_, c)| {
                sevenz_rust::SevenZMethod::by_id(c.decompression_method_id())
                    .map(|m| m.name().to_string())
                    .unwrap_or_default()
            })
            .collect();
        let mut contents = Vec::new();
        let decoded = if folder.num_unpack_sub_streams == 0 {
            Ok(true)
        } else {
            sevenz_rust::BlockDecoder::new(at, &headers, password.as_slice(), &mut source)
                .for_each_entries(&mut |_, reader| {
                    let mut content = Vec::new();
                    std::io::Read::read_to_end(reader, &mut content)?;
                    contents.push(content);
                    Ok(true)
                })
        };
        blocks.push(SevenZBlock {
            first_file: headers.stream_map.folder_first_file_index[at],
            file_count: folder.num_unpack_sub_streams,
            unpack_size: folder.get_unpack_size(),
            coders,
            streams: match decoded {
                Ok(_) => SevenZStreams::Decoded(contents),
                Err(e) => SevenZStreams::Failed(e.to_string()),
            },
        });
    }
    SevenZVolume {
        files,
        blocks,
        pack_sizes: headers.pack_sizes.clone(),
    }
}

fn archive_of<'a>(name: &str, bytes: &'a Vec<u8>) -> SevenZArchive<'a> {
    let mut archive = SevenZArchive::of(DataSource::file(name, bytes)).unwrap();
    archive.attach(read_volume(bytes, ""));
    archive
}


fn inputs() -> Vec<SourceFile> {
    vec![
        SourceFile {
            path: "/src/tree/dir".to_string(),
            fstype: ArchiveFileEntityType::Directory,
            content: Vec::new(),
            modified: 0,
            mode: 0o755,
        },
        SourceFile {
            path: "/src/tree/dir/a.txt".to_string(),
            fstype: ArchiveFileEntityType::File,
            content: vec![b'a'; 2000],
            modified: 1_700_000_000,
            mode: 0o644,
        },
        SourceFile {
            path: "/src/tree/b.txt".to_string(),
            fstype: ArchiveFileEntityType::File,
            content: b"bravo".to_vec(),
            modified: 0,
            mode: 0o644,
        },
        SourceFile {
            path: "/src/tree/empty".to_string(),
            fstype: ArchiveFileEntityType::File,
            content: Vec::new(),
            modified: 0,
            mode: 0o644,
        },
    ]
}

fn sample() -> Vec<u8> {
    let options = CreateOptions {
        destination: "out.7z".to_string(),
        source: "/src/tree".to_string(),
        files: inputs(),
        password: None,
        archive_type: ArchiveType::SevenZ,
        archive_compression: None,
        overwrite: false,
        include_hidden: true,
    };
    let mut events = Vec::new();
    let (result, bytes) = SevenZArchive::create(&options, &mut events).unwrap();
    assert_eq!(result.path, "out.7z");
    assert_eq!(result.total_size, 2005);
    assert_eq!(result.compressed_size, bytes.len() as u64);
    assert_eq!(events.len(), 4);
    bytes
}

#[test]
fn sevenz_lists_blocks_first_and_estimates_sizes() {
    let bytes = sample();
    assert_eq!(&bytes[..6], &[0x37, 0x7a, 0xbc, 0xaf, 0x27, 0x1c]);
    let archive = archive_of("a.7z", &bytes);
    let mut events = Vec::new();
    let listed = archive.list(&ListOptions::default(), &mut events).unwrap();
    assert!(events.is_empty());
    let names: Vec<&str> = listed.iter().map(|e| e.name()).collect();
    assert_eq!(names, vec!["dir/a.txt", "b.txt", "empty", "dir"]);

    assert_eq!(listed[0].fstype(), ArchiveFileEntityType::File);
    assert_eq!(listed[0].size(), Some(2000));
    assert_eq!(listed[0].compression(), Some("LZMA2"));
    let packed = listed[0].compressed_size().unwrap();
    assert!(packed > 0 && packed < 2000);

    assert_eq!(listed[1].size(), Some(5));
    assert_eq!(listed[2].fstype(), ArchiveFileEntityType::File);
    assert_eq!(listed[2].size(), Some(0));
    assert_eq!(listed[3].fstype(), ArchiveFileEntityType::Directory);
    assert_eq!(listed[3].size(), None);
    assert_eq!(listed[3].compression(), None);
}

#[test]
fn sevenz_metadata_agrees_with_the_listing() {
    let bytes = sample();
    let archive = archive_of("a.7z", &bytes);
    let mut events = Vec::new();
    let listed = archive.list(&ListOptions::default(), &mut events).unwrap();
    let m = archive.metadata(&mut events).unwrap();
    assert_eq!(m.entries.len(), listed.len());
    assert_eq!(m.total_size, 2005);
    assert!(m.compressed_size > 0 && m.compressed_size < bytes.len() as u64);
    assert!(m.compression.is_none());
    assert!(m.additional.is_none());
}

#[test]
fn sevenz_extracts_every_entry() {
    let bytes = sample();
    let archive = archive_of("a.7z", &bytes);
    let mut events = Vec::new();
    let options = ExtractOptions {
        destination: "out".to_string(),
        ..ExtractOptions::default()
    };
    let written = archive.extract(&options, &Vec::new(), &mut events).unwrap();
    let names: Vec<&str> = written.iter().map(|w| w.name.as_str()).collect();
    assert_eq!(names, vec!["dir/a.txt", "b.txt", "empty", "dir"]);
    assert_eq!(written[0].content, vec![b'a'; 2000]);
    assert_eq!(written[1].content, b"bravo".to_vec());
    assert!(written[2].content.is_empty());
    assert_eq!(written[3].fstype, ArchiveFileEntityType::Directory);
    assert_eq!(written[3].path, "out/dir");
    assert!(matches!(events.last(), Some(ArchiveEvent::DoneExtracting(s, d)) if s == "a.7z" && d == "out"));
}

#[test]
fn sevenz_open_reads_one_entry_and_misses_absent_ones() {
    let bytes = sample();
    let archive = archive_of("a.7z", &bytes);
    let out = archive
        .open(&OpenOptions {
            path: "b.txt".to_string(),
            password: None,
        })
        .unwrap();
    assert_eq!(out, b"bravo".to_vec());
    let out = archive
        .open(&OpenOptions {
            path: "empty".to_string(),
            password: None,
        })
        .unwrap();
    assert!(out.is_empty());
    match archive.open(&OpenOptions {
        path: "B.txt".to_string(),
        password: None,
    }) {
        Err(ArchiveError::EntryNotFound(p)) => assert_eq!(p, "B.txt"),
        other => panic!("expected entry not found, got {:?}", other),
    }
}

#[test]
fn a_7z_archive_of_which_nothing_is_attached_is_an_invalid_source() {
    let bytes = sample();
    let archive = SevenZArchive::of(DataSource::file("a.7z", &bytes)).unwrap();
    let mut events = Vec::new();
    match archive.list(&ListOptions::default(), &mut events) {
        Err(ArchiveError::InvalidDataSource(name)) => assert_eq!(name, "a.7z"),
        other => panic!("expected an invalid source, got {:?}", other),
    }
    assert!(matches!(
        archive.open(&OpenOptions {
            path: "b.txt".to_string(),
            password: None
        }),
        Err(ArchiveError::InvalidDataSource(_))
    ));
    assert!(events.is_empty());
}

#[test]
fn a_7z_block_that_was_not_decoded_fails_its_entries_only() {
    let bytes = sample();
    let mut volume = read_volume(&bytes, "");
    volume.blocks[0].streams = SevenZStreams::Failed("bad block".to_string());
    let mut archive = SevenZArchive::of(DataSource::stream(&bytes)).unwrap();
    archive.attach(volume);
    let mut events = Vec::new();
    let written = archive
        .extract(&ExtractOptions::default(), &Vec::new(), &mut events)
        .unwrap();
    assert!(written.iter().all(|w| w.name != "dir/a.txt"));
    assert!(written.iter().any(|w| w.name == "b.txt"));
    assert!(events.iter().any(|e| matches!(
        e,
        ArchiveEvent::FailedToReadEntry(n, ArchiveError::SevenZ(_)) if n == "dir/a.txt"
    )));
}

#[test]
fn created_7z_entries_carry_the_time_of_their_input() {
    let bytes = sample();
    let listed = archive_of("a.7z", &bytes)
        .list(&ListOptions::default(), &mut Vec::new())
        .unwrap();
    assert_eq!(listed[0].last_modified().unwrap().seconds, 1_700_000_000);
}

#[test]
fn a_7z_password_that_is_not_needed_does_no_harm() {
    let bytes = sample();
    let archive = archive_of("a.7z", &bytes);
    let listed = archive
        .list(
            &ListOptions {
                password: Some("unused".to_string()),
            },
            &mut Vec::new(),
        )
        .unwrap();
    assert_eq!(listed.len(), 4);
    let out = archive
        .open(&OpenOptions {
            path: "dir/a.txt".to_string(),
            password: Some("unused".to_string()),
        })
        .unwrap();
    assert_eq!(out, vec![b'a'; 2000]);
}

#[test]
fn sevenz_create_takes_hidden_files_whatever_the_options_say() {
    let options = CreateOptions {
        destination: "out.7z".to_string(),
        source: "/src/tree".to_string(),
        files: vec![SourceFile {
            path: "/src/tree/.secret".to_string(),
            fstype: ArchiveFileEntityType::File,
            content: b"hidden".to_vec(),
            modified: 0,
            mode: 0o600,
        }],
        password: None,
        archive_type: ArchiveType::SevenZ,
        archive_compression: None,
        overwrite: false,
        include_hidden: false,
    };
    let mut events = Vec::new();
    let (result, bytes) = SevenZArchive::create(&options, &mut events).unwrap();
    assert_eq!(result.total_size, 6);
    assert!(matches!(
        &events[0],
        ArchiveEvent::Created(n, ArchiveFileEntityType::File) if n == ".secret"
    ));
    let archive = archive_of("out.7z", &bytes);
    let out = archive
        .open(&OpenOptions {
            path: ".secret".to_string(),
            password: None,
        })
        .unwrap();
    assert_eq!(out, b"hidden".to_vec());
}
