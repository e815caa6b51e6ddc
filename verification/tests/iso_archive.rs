use hezi::archive::{
    join_path_with_root, ArchiveError, ArchiveEvent, ArchiveFileEntityType, ArchiveType, Archived,
    CreateOptions, DataSource, ExtractOptions, ISOArchive, IsoDirectory, IsoEntry, IsoFile,
    IsoSymlink, IsoVolume, ListOptions, OpenOptions,
};

#[test]
fn test_join_path_with_root() {
    let source = "./Desktop";
    let fs_path = "/test";
    assert_eq!(join_path_with_root(source, fs_path), "./Desktop/test");
}

#[test]
fn join_path_with_root_drops_the_first_component() {
    assert_eq!(join_path_with_root("out", "//a/b"), "out/a/b");
    assert_eq!(join_path_with_root("out/", "/a"), "out/a");
    assert_eq!(join_path_with_root("out", "top/inner/leaf"), "out/inner/leaf");
    assert_eq!(join_path_with_root("out", "single"), "out");
    assert_eq!(join_path_with_root("", "/a/b"), "a/b");
}

fn volume() -> IsoVolume {
    let docs = IsoDirectory {
        identifier: "DOCS".to_string(),
        modified: 1_600_000_000,
        entries: vec![
            IsoEntry::Directory(IsoDirectory {
                identifier: ".".to_string(),
                modified: 0,
                entries: Vec::new(),
            }),
            IsoEntry::Directory(IsoDirectory {
                identifier: "..".to_string(),
                modified: 0,
                entries: Vec::new(),
            }),
            IsoEntry::File(IsoFile {
                identifier: "README.TXT".to_string(),
                modified: 1_600_000_100,
                content: b"read me".to_vec(),
            }),
            IsoEntry::Unreadable("bad directory record".to_string()),
        ],
    };
    IsoVolume {
        is_rock_ridge: true,
        block_size: 2048,
        volume_set_identifier: "SET".to_string(),
        publisher_identifier: "PUB".to_string(),
        data_preparer_identifier: "PREP".to_string(),
        application_identifier: "APP".to_string(),
        copyright_file_identifier: None,
        abstract_file_identifier: Some("ABSTRACT".to_string()),
        bibliographic_file_identifier: None,
        root: IsoDirectory {
            identifier: "".to_string(),
            modified: 1_500_000_000,
            entries: vec![
                IsoEntry::File(IsoFile {
                    identifier: "BOOT.BIN".to_string(),
                    modified: 1_600_000_200,
                    content: vec![1, 2, 3, 4],
                }),
                IsoEntry::Directory(docs),
                IsoEntry::Symlink(IsoSymlink {
                    identifier: "LINK".to_string(),
                    modified: 1_600_000_300,
                    target: Some("BOOT.BIN".to_string()),
                }),
            ],
        },
    }
}

fn archive(bytes: &Vec<u8>) -> ISOArchive<'_> {
    let mut a = ISOArchive::of(DataSource::file("disc.iso", bytes)).unwrap();
    a.attach(volume());
    a
}

#[test]
fn iso_lists_by_descending_depth_first() {
    let bytes = Vec::new();
    let mut events = Vec::new();
    let listed = archive(&bytes)
        .list(&ListOptions::default(), &mut events)
        .unwrap();
    let names: Vec<(&str, ArchiveFileEntityType)> =
        listed.iter().map(|e| (e.name(), e.fstype())).collect();
    assert_eq!(
        names,
        vec![
            ("BOOT.BIN", ArchiveFileEntityType::File),
            ("DOCS", ArchiveFileEntityType::Directory),
            ("DOCS/README.TXT", ArchiveFileEntityType::File),
            ("LINK", ArchiveFileEntityType::SymbolicLink),
        ]
    );
    assert_eq!(listed[0].size(), Some(4));
    assert_eq!(listed[0].compressed_size(), Some(4));
    assert_eq!(listed[0].compression(), None);
    assert_eq!(listed[1].size(), None);
    assert_eq!(listed[2].last_modified().unwrap().seconds, 1_600_000_100);
    assert_eq!(events.len(), 1);
    assert!(matches!(
        &events[0],
        ArchiveEvent::FailedToReadEntry(n, ArchiveError::Iso(why)) if n == "DOCS/???" && why == "bad directory record"
    ));
}

#[test]
fn iso_metadata_carries_the_descriptors() {
    let bytes = vec![0u8; 10];
    let mut events = Vec::new();
    let m = archive(&bytes).metadata(&mut events).unwrap();
    assert_eq!(m.entries.len(), 4);
    assert_eq!(m.total_size, 4 + 7);
    assert_eq!(m.compressed_size, 4 + 7);
    assert!(m.compression.is_none());
    match m.additional {
        Some(hezi::archive::AdditionalMetadata::Iso {
            is_rock_ridge,
            block_size,
            primary_volume_descriptor,
            publisher_identifier,
            abstract_file_identifier,
            copyright_file_identifier,
            ..
        }) => {
            assert!(is_rock_ridge);
            assert_eq!(block_size, 2048);
            assert_eq!(primary_volume_descriptor, "SET");
            assert_eq!(publisher_identifier, "PUB");
            assert_eq!(abstract_file_identifier, Some("ABSTRACT".to_string()));
            assert_eq!(copyright_file_identifier, None);
        }
        other => panic!("expected the volume descriptors, got {:?}", other),
    }
}

#[test]
fn iso_extract_resolves_links_below_the_destination() {
    let bytes = Vec::new();
    let mut events = Vec::new();
    let options = ExtractOptions {
        destination: "out".to_string(),
        ..ExtractOptions::default()
    };
    let written = archive(&bytes)
        .extract(&options, &Vec::new(), &mut events)
        .unwrap();
    let names: Vec<&str> = written.iter().map(|w| w.path.as_str()).collect();
    assert_eq!(
        names,
        vec!["out/BOOT.BIN", "out/DOCS/README.TXT", "out/LINK", "out/DOCS"]
    );
    assert_eq!(written[0].content, vec![1, 2, 3, 4]);
    assert_eq!(written[1].content, b"read me".to_vec());
    assert_eq!(written[2].link_target, Some("out/BOOT.BIN".to_string()));
    assert_eq!(written[3].fstype, ArchiveFileEntityType::Directory);
}

#[test]
fn iso_open_reads_files_by_their_listed_names() {
    let bytes = Vec::new();
    let a = archive(&bytes);
    let out = a
        .open(&OpenOptions {
            path: "DOCS/README.TXT".to_string(),
            password: None,
        })
        .unwrap();
    assert_eq!(out, b"read me".to_vec());
    match a.open(&OpenOptions {
        path: "DOCS/MISSING".to_string(),
        password: None,
    }) {
        Err(ArchiveError::EntryNotFound(p)) => assert_eq!(p, "DOCS/MISSING"),
        other => panic!("expected entry not found, got {:?}", other),
    }
}

#[test]
fn iso_without_its_tree_is_an_invalid_source() {
    let bytes = Vec::new();
    let a = ISOArchive::of(DataSource::file("disc.iso", &bytes)).unwrap();
    let mut events = Vec::new();
    match a.list(&ListOptions::default(), &mut events) {
        Err(ArchiveError::InvalidDataSource(name)) => assert_eq!(name, "disc.iso"),
        other => panic!("expected an invalid source, got {:?}", other),
    }
    assert!(events.is_empty());
}

#[test]
fn iso_cannot_be_created() {
    let options = CreateOptions {
        destination: "a.iso".to_string(),
        source: ".".to_string(),
        files: Vec::new(),
        password: None,
        archive_type: ArchiveType::Iso,
        archive_compression: None,
        overwrite: false,
        include_hidden: true,
    };
    let mut events = Vec::new();
    match ISOArchive::create(&options, &mut events) {
        Err(ArchiveError::UnsupportedActionForArchiveType(action, kind)) => {
            assert_eq!(action, "create");
            assert_eq!(kind, ArchiveType::Iso);
        }
        other => panic!("expected a refusal, got {:?}", other.map(|m| m.0)),
    }
}
