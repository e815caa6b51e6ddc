use hezi::archive::entity::{modified, total_compressed_size, total_file_size};
use hezi::archive::sevenz_archive::{estimate_compressed_size, total_size, SevenZFolder};
use hezi::archive::tar_archive::entry_kind;
use hezi::archive::zip_archive::{zip_method, ZipMethod};
use hezi::archive::{
    ArchiveCompression, ArchiveError, ArchiveFileEntity, ArchiveFileEntityType, Timestamp,
};

fn entity(size: Option<u64>, packed: Option<u64>, fstype: ArchiveFileEntityType) -> ArchiveFileEntity {
    ArchiveFileEntity::new("n".to_string(), size, packed, None, None, fstype)
}

#[test]
fn entities_give_back_what_they_were_made_of() {
    let at = Timestamp {
        seconds: 10,
        offset: 3600,
    };
    let e = ArchiveFileEntity::new(
        "a/b".to_string(),
        Some(1),
        Some(2),
        Some(at),
        Some("zstd".to_string()),
        ArchiveFileEntityType::File,
    );
    assert_eq!(e.name(), "a/b");
    assert_eq!(e.size(), Some(1));
    assert_eq!(e.compressed_size(), Some(2));
    assert_eq!(e.last_modified(), Some(at));
    assert_eq!(e.compression(), Some("zstd"));
    assert_eq!(e.fstype(), ArchiveFileEntityType::File);
    let c = e.clone();
    assert_eq!(c.name(), "a/b");
    assert_eq!(c.last_modified(), Some(at));
}

#[test]
fn totals_count_files_and_saturate() {
    let entries = vec![
        entity(Some(10), Some(4), ArchiveFileEntityType::File),
        entity(Some(99), Some(1), ArchiveFileEntityType::Directory),
        entity(None, None, ArchiveFileEntityType::File),
        entity(Some(5), Some(2), ArchiveFileEntityType::File),
    ];
    assert_eq!(total_file_size(&entries), 15);
    assert_eq!(total_compressed_size(&entries), 7);
    assert_eq!(total_file_size(&Vec::new()), 0);
    let huge = vec![
        entity(Some(u64::MAX), Some(u64::MAX), ArchiveFileEntityType::File),
        entity(Some(1), Some(1), ArchiveFileEntityType::File),
    ];
    assert_eq!(total_file_size(&huge), u64::MAX);
    assert_eq!(total_compressed_size(&huge), u64::MAX);
    assert_eq!(total_size(&vec![1, 2, 3]), 6);
    assert_eq!(total_size(&vec![u64::MAX, 2]), u64::MAX);
}

#[test]
fn times_of_entries_keep_their_moment() {
    assert_eq!(modified(None), None);
    assert_eq!(modified(Some(0)).unwrap().seconds, 0);
    let late = modified(Some(253_402_300_800)).unwrap();
    assert_eq!(late.seconds, 253_402_300_800);
    assert!(late.offset > -86_400 && late.offset < 86_400);
    assert_eq!(modified(Some(i64::MIN)), Some(Timestamp { seconds: i64::MIN, offset: 0 }));
    assert_eq!(modified(Some(i64::MAX)), Some(Timestamp { seconds: i64::MAX, offset: 0 }));
}

#[test]
fn the_clock_of_an_entry_is_less_than_a_day_from_utc() {
    let far = ArchiveFileEntity::new(
        "a".to_string(),
        None,
        None,
        Some(Timestamp { seconds: 7, offset: 86_400 }),
        None,
        ArchiveFileEntityType::File,
    );
    assert_eq!(far.last_modified(), Some(Timestamp { seconds: 7, offset: 0 }));
    let near = ArchiveFileEntity::new(
        "a".to_string(),
        None,
        None,
        Some(Timestamp { seconds: 7, offset: -86_399 }),
        None,
        ArchiveFileEntityType::File,
    );
    assert_eq!(near.last_modified(), Some(Timestamp { seconds: 7, offset: -86_399 }));
}

fn block(unpack_size: u64, pack_size: Option<u64>) -> Option<SevenZFolder> {
    Some(SevenZFolder {
        first_file: 0,
        file_count: 1,
        unpack_size,
        pack_size,
        method: Some("LZMA2".to_string()),
    })
}

#[test]
fn compressed_sizes_are_scaled_by_the_block() {
    assert_eq!(estimate_compressed_size(1000, &block(4000, Some(1000))), 250);
    assert_eq!(estimate_compressed_size(10, &block(3, Some(1))), 3);
    assert_eq!(estimate_compressed_size(0, &block(3, Some(1))), 0);
    assert_eq!(estimate_compressed_size(7, &block(3, Some(0))), 7);
    assert_eq!(estimate_compressed_size(7, &block(0, Some(5))), 7);
    assert_eq!(estimate_compressed_size(7, &block(3, None)), 7);
    assert_eq!(estimate_compressed_size(7, &None), 7);
    assert_eq!(
        estimate_compressed_size(u64::MAX, &block(1, Some(u64::MAX))),
        u64::MAX
    );
    assert_eq!(
        estimate_compressed_size(u64::MAX, &block(u64::MAX, Some(u64::MAX))),
        u64::MAX
    );
}

#[test]
fn tar_entry_types() {
    assert_eq!(entry_kind(tar::EntryType::Regular), ArchiveFileEntityType::File);
    assert_eq!(
        entry_kind(tar::EntryType::Directory),
        ArchiveFileEntityType::Directory
    );
    assert_eq!(
        entry_kind(tar::EntryType::Symlink),
        ArchiveFileEntityType::SymbolicLink
    );
    assert_eq!(entry_kind(tar::EntryType::Link), ArchiveFileEntityType::Unknown);
    assert_eq!(entry_kind(tar::EntryType::Fifo), ArchiveFileEntityType::Unknown);
    assert_eq!(
        entry_kind(tar::EntryType::Continuous),
        ArchiveFileEntityType::Unknown
    );
}

#[test]
fn zip_methods() {
    assert_eq!(
        zip_method(&ArchiveCompression::Uncompressed).unwrap(),
        ZipMethod::Stored
    );
    assert_eq!(
        zip_method(&ArchiveCompression::Deflate).unwrap(),
        ZipMethod::Deflated
    );
    assert_eq!(zip_method(&ArchiveCompression::Bzip2).unwrap(), ZipMethod::Bzip2);
    assert_eq!(zip_method(&ArchiveCompression::Zstd).unwrap(), ZipMethod::Zstd);
    assert_eq!(zip_method(&ArchiveCompression::Aes).unwrap(), ZipMethod::Aes);
    for refused in [
        ArchiveCompression::Gzip,
        ArchiveCompression::Lzma,
        ArchiveCompression::Unknown("x".to_string()),
    ] {
        match zip_method(&refused) {
            Err(ArchiveError::UnsupportedCompression(c)) => assert_eq!(c, refused),
            _ => panic!("{:?} has no zip method", refused),
        }
    }
}
