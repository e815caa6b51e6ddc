//! 7z containers. What is read of an archive is handed in by the caller;
//! this module walks it. Archives are written through the `sevenz_rust`
//! crate.
use vstd::prelude::*;
use crate::archive::archived::Archived;
use crate::archive::archive_base::{ArchiveError, ArchiveFileEntityType, Fault};
use crate::archive::datasource::{DataSource, DataSourceView};
use crate::archive::entity::{
    modified, modified_at, saturated, total_file_size, ArchiveFileEntity, ArchiveMetadata,
    CreateResult, EntityView,
};
use crate::archive::create::{input_views, plan_inputs, planned_inputs, summarize, InputView};
use crate::archive::events::{ArchiveEvent, EventView};
use crate::archive::extract::{
    contents_of, extract_with, read_or, record_views, EntryReader, EntryRecord, ExtractedEntry,
    RecordView,
};
use crate::archive::listing::{entities_from, open_with};
use crate::archive::options::{
    CreateOptions, ExtractOptions, ListOptions, OpenOptions, SourceFile,
};

verus! {

/// What the headers of a 7z archive say of one entry.
#[derive(Debug)]
pub struct SevenZEntry {
    pub name: String,
    pub has_stream: bool,
    pub is_directory: bool,
    pub size: u64,
    pub has_last_modified_date: bool,
    /// The time of the last change, in seconds since the Unix epoch; it
    /// counts only where the entry has such a time.
    pub last_modified: i64,
    /// The solid block that holds the content of the entry, if one does.
    pub folder: Option<usize>,
}

/// The mathematical value of a [`SevenZEntry`].
pub struct SevenZEntryView {
    pub name: Seq<char>,
    pub has_stream: bool,
    pub is_directory: bool,
    pub size: u64,
    pub has_last_modified_date: bool,
    pub last_modified: i64,
    pub folder: Option<usize>,
}

impl View for SevenZEntry {
    type V = SevenZEntryView;

    open spec fn view(&self) -> SevenZEntryView {
        SevenZEntryView {
            name: self.name@,
            has_stream: self.has_stream,
            is_directory: self.is_directory,
            size: self.size,
            has_last_modified_date: self.has_last_modified_date,
            last_modified: self.last_modified,
            folder: self.folder,
        }
    }
}

/// What is known of one solid block of a 7z archive: which entries it
/// holds, how large it is packed and unpacked, and how it is compressed.
#[derive(Debug)]
pub struct SevenZFolder {
    /// The number of the first entry in the block.
    pub first_file: usize,
    /// How many entries follow one another in the block.
    pub file_count: usize,
    pub unpack_size: u64,
    pub pack_size: Option<u64>,
    /// The name of the method of the first coder of the block.
    pub method: Option<String>,
}

/// The mathematical value of a [`SevenZFolder`].
pub struct SevenZFolderView {
    pub first_file: usize,
    pub file_count: usize,
    pub unpack_size: u64,
    pub pack_size: Option<u64>,
    pub method: Option<Seq<char>>,
}

impl View for SevenZFolder {
    type V = SevenZFolderView;

    open spec fn view(&self) -> SevenZFolderView {
        SevenZFolderView {
            first_file: self.first_file,
            file_count: self.file_count,
            unpack_size: self.unpack_size,
            pack_size: self.pack_size,
            method: match self.method {
                Some(m) => Some(m@),
                None => None,
            },
        }
    }
}

/// What was got of the contents of one solid block.
#[derive(Debug)]
pub enum SevenZStreams {
    /// The contents of the entries of the block, in the order of the block.
    Decoded(Vec<Vec<u8>>),
    /// The block could not be decoded; the text says why.
    Failed(String),
}

/// One solid block of a 7z archive as it was read: what its header says, and
/// its contents.
#[derive(Debug)]
pub struct SevenZBlock {
    /// The number of the first entry in the block.
    pub first_file: usize,
    /// How many entries follow one another in the block.
    pub file_count: usize,
    pub unpack_size: u64,
    /// The names of the methods of the coders of the block, in the order in
    /// which they are applied to decode it; a method without a name has the
    /// empty one.
    pub coders: Vec<String>,
    pub streams: SevenZStreams,
}

/// A 7z archive as it was read: the entries and the solid blocks of its
/// headers, the sizes of its packed streams, and the contents of the blocks.
/// The caller reads it from the source and attaches it.
#[derive(Debug)]
pub struct SevenZVolume {
    pub files: Vec<SevenZEntry>,
    pub blocks: Vec<SevenZBlock>,
    pub pack_sizes: Vec<u64>,
}

/// The mathematical value of a [`SevenZVolume`]. A block is compressed by
/// the method of its first coder, where that has a name, and its packed size is that of the packed
/// stream with its own number.
pub struct SevenZModel {
    pub files: Seq<SevenZEntryView>,
    pub folders: Seq<SevenZFolderView>,
    pub pack_sizes: Seq<u64>,
    /// The contents of each block, where it was decoded.
    pub streams: Seq<Option<Seq<Seq<u8>>>>,
}

/// The views of the contents of a block, in order.
pub open spec fn stream_views(streams: Seq<Vec<u8>>) -> Seq<Seq<u8>> {
    streams.map_values(|c: Vec<u8>| c@)
}

/// What is known of the block with the number `at`.
pub open spec fn folder_view(block: SevenZBlock, pack_sizes: Seq<u64>, at: int) -> SevenZFolderView {
    SevenZFolderView {
        first_file: block.first_file,
        file_count: block.file_count,
        unpack_size: block.unpack_size,
        pack_size: if 0 <= at < pack_sizes.len() {
            Some(pack_sizes[at])
        } else {
            None
        },
        method: if block.coders@.len() > 0 && block.coders@[0]@.len() > 0 {
            Some(block.coders@[0]@)
        } else {
            None
        },
    }
}

/// The contents of a block, where it was decoded.
pub open spec fn decoded_streams(block: SevenZBlock) -> Option<Seq<Seq<u8>>> {
    match block.streams {
        SevenZStreams::Decoded(streams) => Some(stream_views(streams@)),
        SevenZStreams::Failed(_) => None,
    }
}

impl View for SevenZVolume {
    type V = SevenZModel;

    open spec fn view(&self) -> SevenZModel {
        SevenZModel {
            files: self.files@.map_values(|e: SevenZEntry| e@),
            folders: Seq::new(
                self.blocks@.len(),
                |at: int| folder_view(self.blocks@[at], self.pack_sizes@, at),
            ),
            pack_sizes: self.pack_sizes@,
            streams: self.blocks@.map_values(|b: SevenZBlock| decoded_streams(b)),
        }
    }
}

/// The error that stands for a block that could not be decoded
/// (`sevenz_rust::Error::other` with the reason).
#[verifier::external_body]
fn sevenz_failure(reason: &str) -> sevenz_rust::Error {
    sevenz_rust::Error::other(reason.to_string())
}

/// The size that an entry is taken to have inside the archive: its size,
/// scaled by the packed size of its solid block over the unpacked size of the
/// block, rounded down; or its size as it is, where the block does not give
/// both sizes, or gives one as zero.
pub open spec fn estimated_compressed_size(size: u64, block: Option<SevenZFolderView>) -> u64 {
    match block {
        Some(f) => match f.pack_size {
            Some(pack) => if pack != 0 && f.unpack_size != 0 {
                saturated((size * pack) / (f.unpack_size as int))
            } else {
                size
            },
            None => size,
        },
        None => size,
    }
}

/// The entity that an entry of a 7z archive is listed as, given the solid
/// block that holds it, if one does.
pub open spec fn sevenz_entity(e: SevenZEntryView, block: Option<SevenZFolderView>) -> EntityView {
    EntityView {
        name: e.name,
        size: if e.has_stream {
            Some(e.size)
        } else {
            None
        },
        compressed_size: if e.has_stream {
            Some(estimated_compressed_size(e.size, block))
        } else {
            None
        },
        last_modified: if e.has_last_modified_date {
            modified_at(Some(e.last_modified as int))
        } else {
            None
        },
        compression: match block {
            Some(f) => f.method,
            None => None,
        },
        fstype: if e.is_directory {
            ArchiveFileEntityType::Directory
        } else if e.has_stream {
            ArchiveFileEntityType::File
        } else {
            ArchiveFileEntityType::Unknown
        },
    }
}

/// The record of the entry with this number in a 7z archive.
pub open spec fn sevenz_record(
    e: SevenZEntryView,
    index: usize,
    block: Option<SevenZFolderView>,
) -> RecordView {
    RecordView { index, entity: sevenz_entity(e, block), link_target: None, mode: None }
}

/// The records of the first `upto` entries of the solid block `folder`.
pub open spec fn block_records(m: SevenZModel, folder: int, upto: int) -> Seq<RecordView>
    decreases upto,
{
    if upto <= 0 {
        Seq::empty()
    } else {
        let before = block_records(m, folder, upto - 1);
        let file = m.folders[folder].first_file + upto - 1;
        if file < m.files.len() && file <= usize::MAX {
            before.push(sevenz_record(m.files[file], file as usize, Some(m.folders[folder])))
        } else {
            before
        }
    }
}

/// The records of the entries of the first `upto` solid blocks, block after
/// block.
pub open spec fn blocks_records(m: SevenZModel, upto: int) -> Seq<RecordView>
    decreases upto,
{
    if upto <= 0 {
        Seq::empty()
    } else {
        blocks_records(m, upto - 1) + block_records(
            m,
            upto - 1,
            m.folders[upto - 1].file_count as int,
        )
    }
}

/// The records of the entries, among the first `upto`, that no solid block
/// holds.
pub open spec fn streamless_records(m: SevenZModel, upto: int) -> Seq<RecordView>
    decreases upto,
{
    if upto <= 0 {
        Seq::empty()
    } else {
        let before = streamless_records(m, upto - 1);
        if m.files[upto - 1].folder is None {
            before.push(sevenz_record(m.files[upto - 1], (upto - 1) as usize, None))
        } else {
            before
        }
    }
}

/// The records of a 7z archive: the entries of each solid block, block after
/// block, and then the entries that no block holds.
pub open spec fn sevenz_records(m: SevenZModel) -> Seq<RecordView> {
    blocks_records(m, m.folders.len() as int) + streamless_records(m, m.files.len() as int)
}

/// What reading the entry with this number ends in: nothing for an entry
/// that no solid block holds; else what its block holds at its place, where
/// the block was decoded, and the failure of the block, where it was not.
/// An entry that is not there, or has no place in its block, is not found.
pub open spec fn sevenz_content(m: SevenZModel, file: usize) -> Result<Seq<u8>, Fault> {
    if file >= m.files.len() {
        Err(Fault::EntryNotFound)
    } else {
        match m.files[file as int].folder {
            None => Ok(Seq::empty()),
            Some(folder) => {
                if folder < m.folders.len() && m.folders[folder as int].first_file <= file {
                    let place = file - m.folders[folder as int].first_file;
                    match m.streams[folder as int] {
                        Some(streams) => if place < streams.len() {
                            Ok(streams[place])
                        } else {
                            Err(Fault::EntryNotFound)
                        },
                        None => Err(Fault::SevenZ),
                    }
                } else {
                    Err(Fault::EntryNotFound)
                }
            },
        }
    }
}

/// The contents of the entries of a 7z archive, by their numbers.
pub open spec fn sevenz_contents(m: SevenZModel) -> spec_fn(usize) -> Result<Seq<u8>, Fault> {
    |i: usize| sevenz_content(m, i)
}

/// A 7z archive over a source, with what was read of it, once that is
/// attached.
pub struct SevenZArchive<'a> {
    pub(crate) source: DataSource<'a>,
    pub(crate) volume: Option<SevenZVolume>,
}

/// What was read of a 7z archive, which yields the content of the entries.
pub struct SevenZEntries<'a> {
    volume: &'a SevenZVolume,
}

impl<'a> SevenZEntries<'a> {
    /// What was read of the archive.
    pub closed spec fn model(&self) -> SevenZModel {
        self.volume@
    }
}

impl<'a> EntryReader for SevenZEntries<'a> {
    closed spec fn content(&self, index: usize) -> Result<Seq<u8>, Fault> {
        sevenz_content(self.model(), index)
    }

    /// Reads one entry: what its solid block holds at its place.
    fn read(&mut self, index: usize) -> (r: Result<Vec<u8>, ArchiveError>)
        ensures
            final(self).model() == old(self).model(),
    {
        let volume = self.volume;
        if index >= volume.files.len() {
            return Err(ArchiveError::EntryNotFound(String::new()));
        }
        let entry = &volume.files[index];
        assert(volume@.files[index as int] == entry@);
        let folder = match entry.folder {
            Some(f) => f,
            None => {
                return Ok(Vec::new());
            },
        };
        if folder >= volume.blocks.len() {
            return Err(ArchiveError::EntryNotFound(entry.name.clone()));
        }
        let block = &volume.blocks[folder];
        assert(volume@.streams[folder as int] == decoded_streams(*block));
        if block.first_file > index {
            return Err(ArchiveError::EntryNotFound(entry.name.clone()));
        }
        let place = index - block.first_file;
        match &block.streams {
            SevenZStreams::Decoded(streams) => {
                if place < streams.len() {
                    Ok(streams[place].clone())
                } else {
                    Err(ArchiveError::EntryNotFound(entry.name.clone()))
                }
            },
            SevenZStreams::Failed(reason) => Err(
                ArchiveError::SevenZ(sevenz_failure(reason.as_str())),
            ),
        }
    }
}

/// What is known of the block with this number.
pub fn folder_of(volume: &SevenZVolume, at: usize) -> (r: SevenZFolder)
    requires
        at < volume.blocks@.len(),
    ensures
        r@ == volume@.folders[at as int],
{
    let block = &volume.blocks[at];
    SevenZFolder {
        first_file: block.first_file,
        file_count: block.file_count,
        unpack_size: block.unpack_size,
        pack_size: if at < volume.pack_sizes.len() {
            Some(volume.pack_sizes[at])
        } else {
            None
        },
        method: if block.coders.len() > 0 && block.coders[0].as_str().unicode_len() > 0 {
            Some(block.coders[0].clone())
        } else {
            None
        },
    }
}

/// The size that an entry of this size is taken to have inside the archive.
pub fn estimate_compressed_size(size: u64, block: &Option<SevenZFolder>) -> (r: u64)
    ensures
        r == estimated_compressed_size(
            size,
            match block {
                Some(f) => Some(f@),
                None => None,
            },
        ),
{
    match block {
        Some(f) => match f.pack_size {
            Some(pack) => {
                if pack != 0 && f.unpack_size != 0 {
                    assert(size * pack <= u64::MAX * u64::MAX) by (nonlinear_arith)
                        requires
                            size <= u64::MAX,
                            pack <= u64::MAX,
                    ;
                    let scaled: u128 = (size as u128 * pack as u128) / (f.unpack_size as u128);
                    if scaled > u64::MAX as u128 {
                        u64::MAX
                    } else {
                        scaled as u64
                    }
                } else {
                    size
                }
            },
            None => size,
        },
        None => size,
    }
}

impl<'a> SevenZArchive<'a> {
    /// The source that the archive was read from.
    pub closed spec fn source(&self) -> DataSourceView {
        self.source@
    }

    /// What was read of the archive, once it is attached.
    pub closed spec fn volume(&self) -> Option<SevenZVolume> {
        self.volume
    }

    /// Attaches what was read of the source: its headers and the contents of
    /// its solid blocks.
    pub fn attach(&mut self, volume: SevenZVolume)
        ensures
            final(self).source() == old(self).source(),
            final(self).volume() == Some(volume),
    {
        self.volume = Some(volume);
    }

    /// The entity that an entry is listed as, given the solid block that
    /// holds it, if one does.
    pub fn entity_of(entry: &SevenZEntry, block: &Option<SevenZFolder>) -> (r: ArchiveFileEntity)
        ensures
            r@ == sevenz_entity(
                entry@,
                match block {
                    Some(f) => Some(f@),
                    None => None,
                },
            ),
    {
        let (size, compressed_size) = if entry.has_stream {
            (Some(entry.size), Some(estimate_compressed_size(entry.size, block)))
        } else {
            (None, None)
        };
        let last_modified = if entry.has_last_modified_date {
            modified(Some(entry.last_modified))
        } else {
            None
        };
        let compression = match block {
            Some(f) => match &f.method {
                Some(m) => Some(m.clone()),
                None => None,
            },
            None => None,
        };
        let fstype = if entry.is_directory {
            ArchiveFileEntityType::Directory
        } else if entry.has_stream {
            ArchiveFileEntityType::File
        } else {
            ArchiveFileEntityType::Unknown
        };
        ArchiveFileEntity::new(
            entry.name.clone(),
            size,
            compressed_size,
            last_modified,
            compression,
            fstype,
        )
    }
}

/// Visits every entry of a 7z archive in the order in which its contents
/// can be decoded: block after block, then the entries without content.
/// Each comes back as a record that carries what its block says of it.
pub fn for_each_entries(volume: &SevenZVolume) -> (r: Vec<EntryRecord>)
    ensures
        record_views(r@) == sevenz_records(volume@),
{
    let ghost m = volume@;
    let files = volume.files.len();
    let folders = volume.blocks.len();
    let mut records: Vec<EntryRecord> = Vec::new();
    let mut j: usize = 0;
    while j < folders
        invariant
            j <= folders,
            m == volume@,
            files == volume.files@.len(),
            folders == volume.blocks@.len(),
            record_views(records@) == blocks_records(m, j as int),
        decreases folders - j,
    {
        let block = Some(folder_of(volume, j));
        let ghost done = record_views(records@);
        let count = block.as_ref().unwrap().file_count;
        let first = block.as_ref().unwrap().first_file;
        let mut k: usize = 0;
        while k < count
            invariant
                k <= count,
                j < folders,
                m == volume@,
                files == volume.files@.len(),
                folders == volume.blocks@.len(),
                block matches Some(b) && b@ == m.folders[j as int],
                count == m.folders[j as int].file_count,
                first == m.folders[j as int].first_file,
                record_views(records@) == done + block_records(m, j as int, k as int),
            decreases count - k,
        {
            let ghost before = record_views(records@);
            if first < files && k < files - first {
                let file = first + k;
                let entry = &volume.files[file];
                assert(m.files[file as int] == entry@);
                let record = EntryRecord {
                    index: file,
                    entity: SevenZArchive::entity_of(entry, &block),
                    link_target: None,
                    mode: None,
                };
                records.push(record);
                assert(record_views(records@) =~= before.push(record@));
            }
            assert(record_views(records@) =~= done + block_records(m, j as int, k + 1));
            k += 1;
        }
        j += 1;
    }
    let ghost blocks = record_views(records@);
    let mut i: usize = 0;
    while i < files
        invariant
            i <= files,
            m == volume@,
            files == volume.files@.len(),
            record_views(records@) == blocks + streamless_records(m, i as int),
        decreases files - i,
    {
        let ghost before = record_views(records@);
        let entry = &volume.files[i];
        assert(m.files[i as int] == entry@);
        if entry.folder.is_none() {
            let record = EntryRecord {
                index: i,
                entity: SevenZArchive::entity_of(entry, &None),
                link_target: None,
                mode: None,
            };
            records.push(record);
            assert(record_views(records@) =~= before.push(record@));
        }
        assert(record_views(records@) =~= blocks + streamless_records(m, i + 1));
        i += 1;
    }
    records
}

/// The sum of the first `upto` of a sequence of sizes.
pub open spec fn size_sum(sizes: Seq<u64>, upto: int) -> int
    decreases upto,
{
    if upto <= 0 {
        0
    } else {
        size_sum(sizes, upto - 1) + sizes[upto - 1]
    }
}

/// The total of a list of sizes; the largest `u64` stands for a total
/// beyond it.
pub fn total_size(sizes: &Vec<u64>) -> (r: u64)
    ensures
        r == saturated(size_sum(sizes@, sizes@.len() as int)),
{
    let mut total: u64 = 0;
    let mut i: usize = 0;
    while i < sizes.len()
        invariant
            i <= sizes@.len(),
            size_sum(sizes@, i as int) >= 0,
            total == saturated(size_sum(sizes@, i as int)),
        decreases sizes@.len() - i,
    {
        total = total.saturating_add(sizes[i]);
        i += 1;
    }
    total
}

impl<'a> SevenZArchive<'a> {
    /// Makes the record of every entry of what was read of the archive. An
    /// archive of which nothing is attached is an invalid source.
    fn scan(&self) -> (r: Result<(SevenZEntries<'_>, Vec<EntryRecord>), ArchiveError>)
        ensures
            r is Ok <==> self.volume() is Some,
            r matches Err(e) ==> (e matches ArchiveError::InvalidDataSource(name) && name@
                == self.source().label()),
            r matches Ok(found) ==> {
                &&& found.0.model() == self.volume().unwrap()@
                &&& record_views(found.1@) == sevenz_records(self.volume().unwrap()@)
            },
    {
        match &self.volume {
            Some(volume) => {
                let records = for_each_entries(volume);
                Ok((SevenZEntries { volume }, records))
            },
            None => Err(ArchiveError::InvalidDataSource(self.source.to_string())),
        }
    }
}

/// One entry as it is handed to the `sevenz_rust` crate to be written.
pub struct SevenZInputView {
    pub name: Seq<char>,
    pub is_directory: bool,
    pub content: Seq<u8>,
    /// When the input was last modified, in seconds since the Unix epoch.
    pub modified: i64,
}

/// A 7z archive that the `sevenz_rust` crate is writing into memory.
#[verifier::external_body]
pub struct SevenZBuilder {
    inner: sevenz_rust::SevenZWriter<std::io::Cursor<Vec<u8>>>,
}

/// The entries that were pushed to an archive that is being written.
pub uninterp spec fn sevenz_pushed(builder: SevenZBuilder) -> Seq<SevenZInputView>;

/// Whether the `sevenz_rust` crate can encode an entry after those that were
/// pushed.
pub uninterp spec fn sevenz_takes(pushed: Seq<SevenZInputView>, entry: SevenZInputView) -> bool;

/// The archive that the `sevenz_rust` crate makes of a sequence of entries.
pub uninterp spec fn sevenz_image_of(entries: Seq<SevenZInputView>) -> Option<Seq<u8>>;

/// `sevenz_rust::SevenZWriter::new` over an empty buffer. Trusted: it
/// succeeds, since all it does is to move the cursor of the buffer forward,
/// past the place of the signature header.
#[verifier::external_body]
fn sevenz_builder_new() -> (r: Result<SevenZBuilder, sevenz_rust::Error>)
    ensures
        r is Ok,
        r matches Ok(builder) ==> sevenz_pushed(builder) == Seq::<SevenZInputView>::empty(),
{
    Ok(SevenZBuilder { inner: sevenz_rust::SevenZWriter::new(std::io::Cursor::new(Vec::new()))? })
}

/// Adds one entry with `sevenz_rust::SevenZWriter::push_archive_entry`: a
/// directory, or a file with this content, with the time of its last change
/// where `nt_time::FileTime::from_unix_time` can hold that time. Trusted:
/// whether the entry can be encoded depends on it and on those pushed
/// before, and an entry that is encoded is added.
#[verifier::external_body]
fn sevenz_push(
    builder: &mut SevenZBuilder,
    name: &str,
    is_directory: bool,
    content: &Vec<u8>,
    modified: i64,
) -> (r: Result<(), sevenz_rust::Error>)
    ensures
        r is Ok <==> sevenz_takes(
            sevenz_pushed(*old(builder)),
            SevenZInputView { name: name@, is_directory, content: content@, modified },
        ),
        r is Ok ==> sevenz_pushed(*final(builder)) == sevenz_pushed(*old(builder)).push(
            SevenZInputView { name: name@, is_directory, content: content@, modified },
        ),
{
    let mut entry = sevenz_rust::SevenZArchiveEntry::new();
    entry.name = name.to_string();
    entry.is_directory = is_directory;
    if let Ok(at) = sevenz_rust::nt_time::FileTime::from_unix_time(modified) {
        entry.last_modified_date = at;
        entry.has_last_modified_date = true;
    }
    builder.inner.push_archive_entry(entry, Some(content.as_slice()))?;
    Ok(())
}

/// `sevenz_rust::SevenZWriter::finish`: writes the headers and hands the
/// buffer out. Trusted: the archive depends on the entries alone.
#[verifier::external_body]
fn sevenz_finish(builder: SevenZBuilder) -> (r: Result<Vec<u8>, std::io::Error>)
    ensures
        r is Ok <==> sevenz_image_of(sevenz_pushed(builder)) is Some,
        r matches Ok(out) ==> sevenz_image_of(sevenz_pushed(builder)) == Some(out@),
{
    Ok(builder.inner.finish()?.into_inner())
}

/// A time in seconds since the Unix epoch as a signed number; the largest
/// one stands for a time beyond it.
pub open spec fn signed_time(modified: u64) -> i64 {
    if modified > i64::MAX {
        i64::MAX
    } else {
        modified as i64
    }
}

/// The entry that is written for a planned input.
pub open spec fn sevenz_input(input: InputView, files: Seq<SourceFile>) -> SevenZInputView {
    let file = files[input.source as int];
    SevenZInputView {
        name: input.name,
        is_directory: file.fstype == ArchiveFileEntityType::Directory,
        content: file.content@,
        modified: signed_time(file.modified),
    }
}

/// The entries that are written for the inputs of the options, in order.
/// Hidden files go in like the others, whatever the options say of them.
pub open spec fn sevenz_inputs(options: CreateOptions) -> Seq<SevenZInputView> {
    planned_inputs(
        options.files@,
        options.source@,
        true,
        options.files@.len() as int,
    ).map_values(|input: InputView| sevenz_input(input, options.files@))
}

/// Whether the `sevenz_rust` crate encodes each of the first `upto` entries
/// in its turn.
pub open spec fn sevenz_takes_all(entries: Seq<SevenZInputView>, upto: int) -> bool
    decreases upto,
{
    upto <= 0 || (sevenz_takes_all(entries, upto - 1) && sevenz_takes(
        entries.take(upto - 1),
        entries[upto - 1],
    ))
}

/// Once the `sevenz_rust` crate has refused an entry, it has not taken all of
/// any longer run of entries.
proof fn lemma_sevenz_takes_all_is_monotone(entries: Seq<SevenZInputView>, from: int, to: int)
    requires
        0 <= from <= to,
        !sevenz_takes_all(entries, from),
    ensures
        !sevenz_takes_all(entries, to),
    decreases to - from,
{
    if from < to {
        lemma_sevenz_takes_all_is_monotone(entries, from, to - 1);
    }
}

/// The archive that creating a 7z archive from the options comes to. There
/// is none where an entry cannot be encoded or the headers cannot be written.
pub open spec fn sevenz_creation(options: CreateOptions) -> Option<Seq<u8>> {
    let entries = sevenz_inputs(options);
    if sevenz_takes_all(entries, entries.len() as int) {
        sevenz_image_of(entries)
    } else {
        None
    }
}

impl<'a> Archived<'a> for SevenZArchive<'a> {
    open spec fn accepts(source: DataSourceView) -> bool {
        true
    }

    open spec fn label(&self) -> Seq<char> {
        self.source().label()
    }

    open spec fn bytes(&self) -> Seq<u8> {
        self.source().bytes
    }

    open spec fn records(&self, password: Option<Seq<char>>) -> Option<Seq<RecordView>> {
        match self.volume() {
            Some(volume) => Some(sevenz_records(volume@)),
            None => None,
        }
    }

    open spec fn reports(&self, password: Option<Seq<char>>) -> Seq<EventView> {
        Seq::empty()
    }

    open spec fn contents(&self, password: Option<Seq<char>>) -> spec_fn(usize) -> Result<Seq<u8>, Fault> {
        sevenz_contents(self.volume().unwrap()@)
    }

    open spec fn keeps_hidden(options: CreateOptions) -> bool {
        true
    }

    /// The 7z archive over a source. What is read of the source is yet to
    /// be attached.
    fn of(source: DataSource<'a>) -> (r: Result<Self, ArchiveError>)
        ensures
            r matches Ok(a) && a.source() == source@ && a.volume() is None,
    {
        Ok(SevenZArchive { source, volume: None })
    }

    /// Lists the entries: those of each solid block, block after block, and
    /// then those without content. The password of the options plays no
    /// part: what is attached was read with one or without.
    fn list(&self, options: &ListOptions, events: &mut Vec<ArchiveEvent>) -> (r: Result<
        Vec<ArchiveFileEntity>,
        ArchiveError,
    >)
        ensures
            final(events)@ == old(events)@,
            r matches Err(e) ==> e is InvalidDataSource,
    {
        match self.scan() {
            Ok(found) => Ok(entities_from(&found.1)),
            Err(e) => Err(e),
        }
    }

    /// Unpacks the archive: see [`extract_with`] for what is written and
    /// reported. `existing` names the entries whose destination exists. The
    /// content of an entry is what its solid block holds at its place.
    fn extract(
        &self,
        options: &ExtractOptions,
        existing: &Vec<String>,
        events: &mut Vec<ArchiveEvent>,
    ) -> (r: Result<Vec<ExtractedEntry>, ArchiveError>)
        ensures
            r matches Err(e) ==> e is InvalidDataSource,
    {
        let (mut entries, records) = match self.scan() {
            Ok(found) => found,
            Err(e) => {
                return Err(e);
            },
        };
        let label = self.source.to_string();
        assert(contents_of(entries) =~= sevenz_contents(self.volume().unwrap()@));
        let out = extract_with(&mut entries, &records, options, existing, label.as_str(), events);
        Ok(out)
    }

    /// What is known of the archive as a whole: its entries, the total size
    /// of its files, and the total of its packed streams.
    fn metadata(&self, events: &mut Vec<ArchiveEvent>) -> (r: Result<
        ArchiveMetadata,
        ArchiveError,
    >)
        ensures
            final(events)@ == old(events)@,
            r matches Err(e) ==> e is InvalidDataSource,
            r matches Ok(m) ==> {
                let packed = self.volume().unwrap()@.pack_sizes;
                &&& m.compressed_size == saturated(size_sum(packed, packed.len() as int))
                &&& m.compression is None
                &&& m.additional is None
            },
    {
        let records = match self.scan() {
            Ok(found) => found.1,
            Err(e) => {
                return Err(e);
            },
        };
        let packed = match &self.volume {
            Some(volume) => total_size(&volume.pack_sizes),
            None => 0,
        };
        let entities = entities_from(&records);
        Ok(
            ArchiveMetadata {
                total_size: total_file_size(&entities),
                compressed_size: packed,
                compression: None,
                entries: entities,
                additional: None,
            },
        )
    }

    /// Reads the content of the entry with the exact name `options.path`. A
    /// name that no entry bears is `EntryNotFound`, and then nothing is read.
    fn open(&self, options: &OpenOptions) -> (r: Result<Vec<u8>, ArchiveError>)
        ensures
            self.volume() is None ==> r matches Err(ArchiveError::InvalidDataSource(_)),
    {
        let (mut entries, records) = match self.scan() {
            Ok(found) => found,
            Err(e) => {
                return Err(e);
            },
        };
        open_with(&mut entries, &records, options.path.as_str())
    }

    /// Creates a 7z archive in memory from the inputs of the options. Each
    /// input is reported in `events`.
    fn create(options: &CreateOptions, events: &mut Vec<ArchiveEvent>) -> (r: Result<
        (CreateResult, Vec<u8>),
        ArchiveError,
    >)
        ensures
            r is Ok <==> sevenz_creation(*options) is Some,
            r matches Ok(made) ==> sevenz_creation(*options) == Some(made.1@),
            r matches Err(e) ==> e is SevenZ || e is Io,
            r matches Err(ArchiveError::SevenZ(_)) ==> !sevenz_takes_all(
                sevenz_inputs(*options),
                sevenz_inputs(*options).len() as int,
            ),
    {
        let (inputs, total) = plan_inputs(options, true, events);
        let ghost entries = sevenz_inputs(*options);
        let mut builder = match sevenz_builder_new() {
            Ok(b) => b,
            Err(e) => {
                return Err(ArchiveError::SevenZ(e));
            },
        };
        let mut k: usize = 0;
        while k < inputs.len()
            invariant
                k <= inputs@.len(),
                entries == sevenz_inputs(*options),
                entries.len() == inputs@.len(),
                input_views(inputs@) == planned_inputs(
                    options.files@,
                    options.source@,
                    true,
                    options.files@.len() as int,
                ),
                forall|j: int|
                    0 <= j < inputs@.len() ==> (#[trigger] inputs@[j]).source < options.files@.len(),
                sevenz_pushed(builder) == entries.take(k as int),
                sevenz_takes_all(entries, k as int),
            decreases inputs@.len() - k,
        {
            let input = &inputs[k];
            let file = &options.files[input.source];
            let is_directory = file.fstype == ArchiveFileEntityType::Directory;
            assert(input_views(inputs@)[k as int] == input@);
            assert(entries[k as int] == sevenz_input(input@, options.files@));
            let modified: i64 = if file.modified > i64::MAX as u64 {
                i64::MAX
            } else {
                file.modified as i64
            };
            match sevenz_push(
                &mut builder,
                input.name.as_str(),
                is_directory,
                &file.content,
                modified,
            ) {
                Ok(()) => {},
                Err(e) => {
                    proof {
                        assert(!sevenz_takes_all(entries, k + 1));
                        lemma_sevenz_takes_all_is_monotone(entries, k + 1, entries.len() as int);
                    }
                    return Err(ArchiveError::SevenZ(e));
                },
            }
            assert(entries.take(k as int).push(entries[k as int]) =~= entries.take(k + 1));
            k += 1;
        }
        assert(entries.take(inputs@.len() as int) =~= entries);
        match sevenz_finish(builder) {
            Ok(bytes) => Ok((summarize(options, total, &bytes), bytes)),
            Err(e) => Err(ArchiveError::Io(e)),
        }
    }
}

} // verus!
