//! Tar containers, plain or under one compression codec, read and written
//! through the `tar` crate.
use vstd::prelude::*;
use crate::archive::archived::Archived;
use std::io::Read;
use crate::archive::archive_base::{ArchiveError, ArchiveFileEntityType, ArchiveType, Fault};
use crate::archive::codecs::{
    decoded, encoded_stream, ArchiveCodec, ArchiveCompression, CompressionTag,
};
use crate::archive::datasource::{DataSource, DataSourceView};
use crate::archive::detect::detection;
use crate::archive::entity::{
    compressed_size_sum, entity_views, modified, modified_at, saturated, total_compressed_size,
    total_file_size, ArchiveFileEntity, ArchiveMetadata, CreateResult, EntityView,
};
use crate::archive::create::{input_views, plan_inputs, planned_inputs, summarize, InputView};
use crate::archive::events::{emit, event_views, ArchiveEvent, EventView};
use crate::archive::extract::{
    all_unpack_alike, contents_of, extract_with, extraction, lemma_alike_records_unpack_alike,
    read_or, record_views, unpack_alike, EntryReader, EntryRecord, ExtractPolicy, ExtractedEntry,
    RecordView,
};
use crate::archive::listing::{
    entities_from, open_with, readable_records, unreadable_name, unreadable_reports,
};
use crate::archive::options::{
    CreateOptions, ExtractOptions, ListOptions, OpenOptions, SourceFile,
};
use crate::archive::paths::{forward_slashes, with_forward_slashes};

verus! {

#[verifier::external_type_specification]
pub struct ExEntryType(tar::EntryType);

/// What the header of one entry of a tar archive says.
#[derive(Debug)]
pub struct TarEntryHeader {
    pub path: String,
    pub kind: tar::EntryType,
    pub size: u64,
    /// When the entry was last modified, in seconds since the Unix epoch.
    pub mtime: Option<u64>,
    /// Where a link points.
    pub link_name: Option<String>,
    pub mode: Option<u32>,
}

/// The mathematical value of a [`TarEntryHeader`].
pub struct TarHeaderView {
    pub path: Seq<char>,
    pub kind: tar::EntryType,
    pub size: u64,
    pub mtime: Option<u64>,
    pub link_name: Option<Seq<char>>,
    pub mode: Option<u32>,
}

impl View for TarEntryHeader {
    type V = TarHeaderView;

    open spec fn view(&self) -> TarHeaderView {
        TarHeaderView {
            path: self.path@,
            kind: self.kind,
            size: self.size,
            mtime: self.mtime,
            link_name: match self.link_name {
                Some(n) => Some(n@),
                None => None,
            },
            mode: self.mode,
        }
    }
}

/// The number of entries that the `tar` crate yields from these bytes, the
/// one at which it gives up, if it does, included.
pub uninterp spec fn tar_count(plain: Seq<u8>) -> nat;

/// The header of the entry with this number, where it can be read.
pub uninterp spec fn tar_header_at(plain: Seq<u8>, index: usize) -> Option<TarHeaderView>;

/// The content of the entry with this number, where it can be read.
pub uninterp spec fn tar_content_at(plain: Seq<u8>, index: usize) -> Option<Seq<u8>>;

/// Counts what `tar::Archive::entries` yields over the bytes. Trusted: the
/// count depends on the bytes alone.
#[verifier::external_body]
fn tar_len(plain: &Vec<u8>) -> (n: usize)
    ensures
        n == tar_count(plain@),
{
    tar::Archive::new(plain.as_slice()).entries().map(|entries| entries.count()).unwrap_or(0)
}

/// Takes the entry with this number from `tar::Archive::entries` and copies
/// what its accessors give; an entry that is not there is an error of kind
/// `NotFound`. Trusted: the outcome depends on the bytes and the number
/// alone.
#[verifier::external_body]
fn tar_header(plain: &Vec<u8>, index: usize) -> (r: Result<TarEntryHeader, std::io::Error>)
    ensures
        r is Ok <==> tar_header_at(plain@, index) is Some,
        r matches Ok(h) ==> tar_header_at(plain@, index) == Some(h@),
{
    let mut archive = tar::Archive::new(plain.as_slice());
    let missing = std::io::Error::from(std::io::ErrorKind::NotFound);
    let entry = archive.entries()?.nth(index).ok_or(missing)??;
    Ok(
        TarEntryHeader {
            path: entry.path()?.to_string_lossy().into_owned(),
            kind: entry.header().entry_type(),
            size: entry.size(),
            mtime: entry.header().mtime().ok(),
            link_name: entry.link_name()?.map(|p| p.to_string_lossy().into_owned()),
            mode: entry.header().mode().ok(),
        },
    )
}

/// Takes the entry with this number from `tar::Archive::entries` and reads
/// it to its end. Trusted: the outcome depends on the bytes and the number
/// alone.
#[verifier::external_body]
fn tar_read(plain: &Vec<u8>, index: usize) -> (r: Result<Vec<u8>, std::io::Error>)
    ensures
        r is Ok <==> tar_content_at(plain@, index) is Some,
        r matches Ok(out) ==> tar_content_at(plain@, index) == Some(out@),
{
    let mut out = Vec::new();
    let mut archive = tar::Archive::new(plain.as_slice());
    let missing = std::io::Error::from(std::io::ErrorKind::NotFound);
    archive.entries()?.nth(index).ok_or(missing)??.read_to_end(&mut out)?;
    Ok(out)
}

/// What an entry of a tar archive is, by the type in its header: a regular
/// file, a directory or a symbolic link; anything else is not known.
pub open spec fn tar_entry_kind(kind: tar::EntryType) -> ArchiveFileEntityType {
    match kind {
        tar::EntryType::Regular => ArchiveFileEntityType::File,
        tar::EntryType::Directory => ArchiveFileEntityType::Directory,
        tar::EntryType::Symlink => ArchiveFileEntityType::SymbolicLink,
        _ => ArchiveFileEntityType::Unknown,
    }
}

/// The moment of a time given in seconds since the Unix epoch, where a
/// signed number holds it.
pub open spec fn signed_seconds(mtime: Option<u64>) -> Option<int> {
    match mtime {
        Some(t) => if t <= i64::MAX {
            Some(t as int)
        } else {
            None
        },
        None => None,
    }
}

/// The entity that a tar header is listed as, in an archive under the
/// compression with this label. A file has its size, which is also the size
/// it takes in the archive; nothing else has one.
pub open spec fn tar_entity(h: TarHeaderView, compression: Seq<char>) -> EntityView {
    let fstype = tar_entry_kind(h.kind);
    let size = if fstype == ArchiveFileEntityType::File {
        Some(h.size)
    } else {
        None
    };
    EntityView {
        name: with_forward_slashes(h.path),
        size,
        compressed_size: size,
        last_modified: modified_at(signed_seconds(h.mtime)),
        compression: Some(compression),
        fstype,
    }
}

/// The record of the entry with this number in a tar archive.
pub open spec fn tar_record(h: TarHeaderView, index: usize, compression: Seq<char>) -> RecordView {
    RecordView {
        index,
        entity: tar_entity(h, compression),
        link_target: h.link_name,
        mode: h.mode,
    }
}

/// The record of each entry of the tar stream `plain`, by its number.
pub open spec fn tar_headers(plain: Seq<u8>, compression: Seq<char>) -> spec_fn(usize) -> Option<
    RecordView,
> {
    |i: usize|
        match tar_header_at(plain, i) {
            Some(h) => Some(tar_record(h, i, compression)),
            None => None,
        }
}

/// The records of the tar stream `plain`: one for each entry whose header
/// can be read, in the order of the stream.
pub open spec fn tar_records(plain: Seq<u8>, compression: Seq<char>) -> Seq<RecordView> {
    readable_records(tar_headers(plain, compression), tar_count(plain) as int)
}

/// The content of each entry of the tar stream `plain`, by its number.
pub open spec fn tar_contents(plain: Seq<u8>) -> spec_fn(usize) -> Result<Seq<u8>, Fault> {
    |i: usize| read_or(tar_content_at(plain, i), Fault::Tar)
}

/// The compression that the bytes of a source are under, where detection
/// recognises them.
pub open spec fn tar_compression(bytes: Seq<u8>) -> Option<CompressionTag> {
    match detection(bytes) {
        Ok(found) => Some(found.1),
        Err(_) => None,
    }
}

/// The tar stream under the compression of a source, where the source is
/// recognised and its codec reads it to the end.
pub open spec fn tar_plain(bytes: Seq<u8>) -> Option<Seq<u8>> {
    match tar_compression(bytes) {
        Some(tag) => decoded(bytes, tag),
        None => None,
    }
}

/// A tar archive over a source.
pub struct TarArchive<'a> {
    pub(crate) source: DataSource<'a>,
}

/// A decoded tar stream that yields the content of its entries.
pub struct TarEntries {
    plain: Vec<u8>,
}

impl TarEntries {
    /// The decoded stream that the entries are read from.
    pub closed spec fn plain(&self) -> Seq<u8> {
        self.plain@
    }
}

impl EntryReader for TarEntries {
    closed spec fn content(&self, index: usize) -> Result<Seq<u8>, Fault> {
        read_or(tar_content_at(self.plain(), index), Fault::Tar)
    }

    fn read(&mut self, index: usize) -> (r: Result<Vec<u8>, ArchiveError>)
        ensures
            final(self).plain() == old(self).plain(),
    {
        match tar_read(&self.plain, index) {
            Ok(out) => Ok(out),
            Err(e) => Err(ArchiveError::Tar(e)),
        }
    }
}

/// What an entry of a tar archive is, by the type in its header.
pub fn entry_kind(kind: tar::EntryType) -> (r: ArchiveFileEntityType)
    ensures
        r == tar_entry_kind(kind),
{
    match kind {
        tar::EntryType::Regular => ArchiveFileEntityType::File,
        tar::EntryType::Directory => ArchiveFileEntityType::Directory,
        tar::EntryType::Symlink => ArchiveFileEntityType::SymbolicLink,
        _ => ArchiveFileEntityType::Unknown,
    }
}

impl<'a> TarArchive<'a> {
    /// The source that the archive reads.
    pub closed spec fn source(&self) -> DataSourceView {
        self.source@
    }

    /// The entity that a header is listed as.
    pub fn entity_of(header: &TarEntryHeader, compression: &str) -> (r: ArchiveFileEntity)
        ensures
            r@ == tar_entity(header@, compression@),
    {
        let fstype = entry_kind(header.kind);
        let size = if fstype == ArchiveFileEntityType::File {
            Some(header.size)
        } else {
            None
        };
        let seconds: Option<i64> = match header.mtime {
            Some(t) => if t <= i64::MAX as u64 {
                Some(t as i64)
            } else {
                None
            },
            None => None,
        };
        ArchiveFileEntity::new(
            forward_slashes(header.path.as_str()),
            size,
            size,
            modified(seconds),
            Some(compression.to_owned()),
            fstype,
        )
    }

    /// Recognises the compression of the source and decodes the whole tar
    /// stream under it, once for the operation that asks.
    fn reader(&self) -> (r: Result<(TarEntries, ArchiveCompression), ArchiveError>)
        ensures
            r is Ok <==> tar_plain(self.bytes()) is Some,
            r matches Ok(found) ==> found.0.plain() == tar_plain(self.bytes()).unwrap()
                && Some(found.1@) == tar_compression(self.bytes()),
    {
        let compression = match ArchiveType::try_from_datasource(&self.source) {
            Ok(found) => found.1,
            Err(e) => {
                return Err(e);
            },
        };
        match ArchiveCodec::get_reader(self.source.bytes(), &compression) {
            Ok(plain) => Ok((TarEntries { plain }, compression)),
            Err(e) => Err(e),
        }
    }

    /// Decodes the stream and reads the record of every entry. An entry
    /// whose header cannot be read is reported and left out.
    fn scan(&self, events: &mut Vec<ArchiveEvent>) -> (r: Result<
        (TarEntries, Vec<EntryRecord>, ArchiveCompression),
        ArchiveError,
    >)
        ensures
            r is Ok <==> tar_plain(self.bytes()) is Some,
            r is Err ==> final(events)@ == old(events)@,
            r matches Ok(found) ==> {
                let plain = tar_plain(self.bytes()).unwrap();
                let label = tar_compression(self.bytes()).unwrap().label();
                &&& found.0.plain() == plain
                &&& Some(found.2@) == tar_compression(self.bytes())
                &&& record_views(found.1@) == tar_records(plain, label)
                &&& event_views(final(events)@) == event_views(old(events)@) + unreadable_reports(
                    tar_headers(plain, label),
                    Fault::Tar,
                    tar_count(plain) as int,
                )
            },
    {
        let (entries, compression) = match self.reader() {
            Ok(found) => found,
            Err(e) => {
                return Err(e);
            },
        };
        let label = compression.to_string();
        let ghost headers = tar_headers(entries.plain@, label@);
        let n = tar_len(&entries.plain);
        let mut records: Vec<EntryRecord> = Vec::new();
        let mut i: usize = 0;
        while i < n
            invariant
                i <= n,
                n == tar_count(entries.plain@),
                headers == tar_headers(entries.plain@, label@),
                record_views(records@) == readable_records(headers, i as int),
                event_views(events@) == event_views(old(events)@) + unreadable_reports(
                    headers,
                    Fault::Tar,
                    i as int,
                ),
            decreases n - i,
        {
            let ghost before = record_views(records@);
            match tar_header(&entries.plain, i) {
                Ok(h) => {
                    let record = EntryRecord {
                        index: i,
                        entity: Self::entity_of(&h, label.as_str()),
                        link_target: h.link_name,
                        mode: h.mode,
                    };
                    records.push(record);
                    assert(record_views(records@) =~= before.push(record@));
                },
                Err(e) => {
                    proof {
                        reveal_strlit("???");
                    }
                    emit(
                        events,
                        ArchiveEvent::FailedToReadEntry("???".to_owned(), ArchiveError::Tar(e)),
                    );
                    assert(event_views(events@) =~= event_views(old(events)@) + unreadable_reports(
                        headers,
                        Fault::Tar,
                        i as int,
                    ).push(EventView::FailedToReadEntry(unreadable_name(), Fault::Tar)));
                },
            }
            i += 1;
        }
        Ok((entries, records, compression))
    }
}

/// Turns the outcome of a step of the `tar` crate into an outcome of the
/// library: a failure becomes a tar error.
pub trait AsTarArchiveResult<T> {
    fn into_tar_archive_result(self) -> Result<T, ArchiveError>;
}

impl<T> AsTarArchiveResult<T> for Result<T, std::io::Error> {
    fn into_tar_archive_result(self) -> (r: Result<T, ArchiveError>)
        ensures
            match self {
                Ok(value) => r == Ok::<T, ArchiveError>(value),
                Err(e) => r == Err::<T, ArchiveError>(ArchiveError::Tar(e)),
            },
    {
        match self {
            Ok(value) => Ok(value),
            Err(e) => Err(ArchiveError::Tar(e)),
        }
    }
}

/// One entry as it is handed to the `tar` crate to be written.
pub struct TarInputView {
    pub name: Seq<char>,
    pub kind: tar::EntryType,
    pub content: Seq<u8>,
    pub mode: u32,
    pub mtime: u64,
}

/// A tar stream that the `tar` crate is writing into memory.
#[verifier::external_body]
pub struct TarBuilder {
    inner: tar::Builder<Vec<u8>>,
}

/// The entries that were appended to a stream that is being written.
pub uninterp spec fn tar_appended(builder: TarBuilder) -> Seq<TarInputView>;

/// Whether the `tar` crate takes an entry after those that were appended: a
/// name that leaves the archive, for one, is refused.
pub uninterp spec fn tar_takes(appended: Seq<TarInputView>, entry: TarInputView) -> bool;

/// The tar stream that the `tar` crate makes of a sequence of entries, end
/// mark included.
pub uninterp spec fn tar_stream_of(entries: Seq<TarInputView>) -> Option<Seq<u8>>;

/// `tar::Builder::new` over an empty buffer.
#[verifier::external_body]
fn tar_builder_new() -> (r: TarBuilder)
    ensures
        tar_appended(r) == Seq::<TarInputView>::empty(),
{
    TarBuilder { inner: tar::Builder::new(Vec::new()) }
}

/// Appends one entry with `tar::Builder::append_data`, under a GNU header of
/// this type, size, mode and time. Trusted: whether the entry is taken
/// depends on it and on those appended before, and an entry that is taken is
/// appended.
#[verifier::external_body]
fn tar_append(
    builder: &mut TarBuilder,
    name: &str,
    kind: tar::EntryType,
    content: &Vec<u8>,
    mode: u32,
    mtime: u64,
) -> (r: Result<(), std::io::Error>)
    ensures
        r is Ok <==> tar_takes(
            tar_appended(*old(builder)),
            TarInputView { name: name@, kind, content: content@, mode, mtime },
        ),
        r is Ok ==> tar_appended(*final(builder)) == tar_appended(*old(builder)).push(
            TarInputView { name: name@, kind, content: content@, mode, mtime },
        ),
{
    let mut header = tar::Header::new_gnu();
    header.set_entry_type(kind);
    header.set_size(content.len() as u64);
    header.set_mode(mode);
    header.set_mtime(mtime);
    builder.inner.append_data(&mut header, name, content.as_slice())
}

/// `tar::Builder::into_inner`: ends the stream and hands the buffer out.
/// Trusted: the stream depends on the entries alone.
#[verifier::external_body]
fn tar_finish(builder: TarBuilder) -> (r: Result<Vec<u8>, std::io::Error>)
    ensures
        r is Ok <==> tar_stream_of(tar_appended(builder)) is Some,
        r matches Ok(out) ==> tar_stream_of(tar_appended(builder)) == Some(out@),
{
    builder.inner.into_inner()
}

/// The type of the header that an input is written under: that of a
/// directory, or that of a regular file.
pub open spec fn tar_kind_of(fstype: ArchiveFileEntityType) -> tar::EntryType {
    if fstype == ArchiveFileEntityType::Directory {
        tar::EntryType::Directory
    } else {
        tar::EntryType::Regular
    }
}

/// The entry that is written for a planned input.
pub open spec fn tar_input(input: InputView, files: Seq<SourceFile>) -> TarInputView {
    let file = files[input.source as int];
    TarInputView {
        name: input.name,
        kind: tar_kind_of(file.fstype),
        content: file.content@,
        mode: file.mode,
        mtime: file.modified,
    }
}

/// The entries that are written for the inputs of the options, in order.
/// Hidden files go in like the others, whatever the options say of them.
pub open spec fn tar_inputs(options: CreateOptions) -> Seq<TarInputView> {
    planned_inputs(
        options.files@,
        options.source@,
        true,
        options.files@.len() as int,
    ).map_values(|input: InputView| tar_input(input, options.files@))
}

/// Whether the `tar` crate takes each of the first `upto` entries in its
/// turn.
pub open spec fn tar_takes_all(entries: Seq<TarInputView>, upto: int) -> bool
    decreases upto,
{
    upto <= 0 || (tar_takes_all(entries, upto - 1) && tar_takes(
        entries.take(upto - 1),
        entries[upto - 1],
    ))
}

/// Once the `tar` crate has refused an entry, it has not taken all of any
/// longer run of entries.
proof fn lemma_tar_takes_all_is_monotone(entries: Seq<TarInputView>, from: int, to: int)
    requires
        0 <= from <= to,
        !tar_takes_all(entries, from),
    ensures
        !tar_takes_all(entries, to),
    decreases to - from,
{
    if from < to {
        lemma_tar_takes_all_is_monotone(entries, from, to - 1);
    }
}

/// The archive that creating a tar archive from the options comes to: the
/// stream of its entries under the compression that is asked for. There is
/// none where no compression is given, where the compression has no codec,
/// where the `tar` crate refuses an entry, or where a codec fails.
pub open spec fn tar_creation(options: CreateOptions) -> Option<Seq<u8>> {
    let entries = tar_inputs(options);
    match options.archive_compression {
        None => None,
        Some(compression) => if tar_takes_all(entries, entries.len() as int) {
            match tar_stream_of(entries) {
                Some(plain) => encoded_stream(plain, compression@),
                None => None,
            }
        } else {
            None
        },
    }
}

impl<'a> TarArchive<'a> {
    /// Encodes a tar stream under a compression.
    fn writer(tar_compression: &ArchiveCompression, plain: &Vec<u8>) -> (r: Result<
        Vec<u8>,
        ArchiveError,
    >)
        ensures
            r is Ok <==> encoded_stream(plain@, tar_compression@) is Some,
            r matches Ok(out) ==> encoded_stream(plain@, tar_compression@) == Some(out@),
            !tar_compression@.is_supported() ==> (r matches Err(
                ArchiveError::UnsupportedCompression(c),
            ) && c@ == tar_compression@),
            r matches Err(e) ==> e is UnsupportedCompression || e is Lzma || e is Io || e is Finish,
            r matches Err(ArchiveError::UnsupportedCompression(_)) ==> !tar_compression@.is_supported(),
    {
        ArchiveCodec::get_writer(tar_compression, plain)
    }
}

impl<'a> Archived<'a> for TarArchive<'a> {
    open spec fn accepts(source: DataSourceView) -> bool {
        true
    }

    open spec fn label(&self) -> Seq<char> {
        self.source().label()
    }

    open spec fn bytes(&self) -> Seq<u8> {
        self.source().bytes
    }

    open spec fn records(&self, password: Option<Seq<char>>) -> Option<Seq<RecordView>> {
        match tar_plain(self.bytes()) {
            Some(plain) => Some(tar_records(plain, tar_compression(self.bytes()).unwrap().label())),
            None => None,
        }
    }

    open spec fn reports(&self, password: Option<Seq<char>>) -> Seq<EventView> {
        let plain = tar_plain(self.bytes()).unwrap();
        unreadable_reports(
            tar_headers(plain, tar_compression(self.bytes()).unwrap().label()),
            Fault::Tar,
            tar_count(plain) as int,
        )
    }

    open spec fn contents(&self, password: Option<Seq<char>>) -> spec_fn(usize) -> Result<Seq<u8>, Fault> {
        tar_contents(tar_plain(self.bytes()).unwrap())
    }

    open spec fn keeps_hidden(options: CreateOptions) -> bool {
        true
    }

    /// The tar archive over a source. Nothing is read yet.
    fn of(source: DataSource<'a>) -> (r: Result<Self, ArchiveError>)
        ensures
            r matches Ok(a) && a.source() == source@,
    {
        Ok(TarArchive { source })
    }

    /// Lists the entries in the order of the stream. An archive whose
    /// compression is not recognised or cannot be decoded is an error.
    fn list(&self, options: &ListOptions, events: &mut Vec<ArchiveEvent>) -> (r: Result<
        Vec<ArchiveFileEntity>,
        ArchiveError,
    >) {
        match self.scan(events) {
            Ok(found) => Ok(entities_from(&found.1)),
            Err(e) => Err(e),
        }
    }

    /// Unpacks the archive: see [`extract_with`] for what is written and
    /// reported. `existing` names the entries whose destination exists.
    fn extract(
        &self,
        options: &ExtractOptions,
        existing: &Vec<String>,
        events: &mut Vec<ArchiveEvent>,
    ) -> (r: Result<Vec<ExtractedEntry>, ArchiveError>) {
        let (mut entries, records, _) = match self.scan(events) {
            Ok(found) => found,
            Err(e) => {
                return Err(e);
            },
        };
        let label = self.source.to_string();
        assert(contents_of(entries) =~= tar_contents(tar_plain(self.bytes()).unwrap()));
        let out = extract_with(&mut entries, &records, options, existing, label.as_str(), events);
        Ok(out)
    }

    /// What is known of the archive as a whole: its entries, the total size
    /// of its files, which is also what they take in the stream, and the
    /// compression that the stream is under.
    fn metadata(&self, events: &mut Vec<ArchiveEvent>) -> (r: Result<
        ArchiveMetadata,
        ArchiveError,
    >)
        ensures
            r matches Ok(m) ==> {
                &&& m.compressed_size == saturated(
                    compressed_size_sum(entity_views(m.entries@), m.entries@.len() as int),
                )
                &&& m.compression matches Some(c) && Some(c@) == tar_compression(self.bytes())
                &&& m.additional is None
            },
    {
        let (_, records, compression) = match self.scan(events) {
            Ok(found) => found,
            Err(e) => {
                return Err(e);
            },
        };
        let entities = entities_from(&records);
        Ok(
            ArchiveMetadata {
                total_size: total_file_size(&entities),
                compressed_size: total_compressed_size(&entities),
                compression: Some(compression),
                entries: entities,
                additional: None,
            },
        )
    }

    /// Reads the content of the entry with the exact name `options.path`.
    /// A name that no entry bears is `EntryNotFound`, and then nothing is
    /// read.
    fn open(&self, options: &OpenOptions) -> (r: Result<Vec<u8>, ArchiveError>) {
        let mut unread: Vec<ArchiveEvent> = Vec::new();
        let (mut entries, records, _) = match self.scan(&mut unread) {
            Ok(found) => found,
            Err(e) => {
                return Err(e);
            },
        };
        open_with(&mut entries, &records, options.path.as_str())
    }

    /// Creates a tar archive in memory from the inputs of the options, under
    /// the compression that they ask for.
    ///
    /// A compression has to be given, and one without a codec is refused;
    /// both before anything is written. Each input is reported in `events`.
    fn create(options: &CreateOptions, events: &mut Vec<ArchiveEvent>) -> (r: Result<
        (CreateResult, Vec<u8>),
        ArchiveError,
    >)
        ensures
            r is Ok <==> tar_creation(*options) is Some,
            r matches Ok(made) ==> tar_creation(*options) == Some(made.1@),
            options.archive_compression is None ==> r matches Err(
                ArchiveError::CompressionMethodRequired,
            ),
            (options.archive_compression is Some && !options.archive_compression.unwrap()@.is_supported())
                ==> (r matches Err(ArchiveError::UnsupportedCompression(refused)) && refused@
                == options.archive_compression.unwrap()@),
            (options.archive_compression is None || !options.archive_compression.unwrap()@.is_supported())
                ==> final(events)@ == old(events)@,
            r matches Err(ArchiveError::CompressionMethodRequired) ==> options.archive_compression
                is None,
            r matches Err(ArchiveError::UnsupportedCompression(_)) ==> (
            options.archive_compression matches Some(c) && !c@.is_supported()),
            r matches Err(ArchiveError::Tar(_)) ==> !tar_takes_all(
                tar_inputs(*options),
                tar_inputs(*options).len() as int,
            ),
    {
        let compression = match &options.archive_compression {
            Some(c) => c,
            None => {
                return Err(ArchiveError::CompressionMethodRequired);
            },
        };
        match compression {
            ArchiveCompression::Aes => {
                return Err(ArchiveError::UnsupportedCompression(compression.clone()));
            },
            ArchiveCompression::Unknown(_) => {
                return Err(ArchiveError::UnsupportedCompression(compression.clone()));
            },
            _ => {},
        }
        let (inputs, total) = plan_inputs(options, true, events);
        let ghost entries = tar_inputs(*options);
        let mut builder = tar_builder_new();
        let mut k: usize = 0;
        while k < inputs.len()
            invariant
                k <= inputs@.len(),
                options.archive_compression is Some,
                options.archive_compression.unwrap()@.is_supported(),
                entries == tar_inputs(*options),
                entries.len() == inputs@.len(),
                input_views(inputs@) == planned_inputs(
                    options.files@,
                    options.source@,
                    true,
                    options.files@.len() as int,
                ),
                forall|j: int|
                    0 <= j < inputs@.len() ==> (#[trigger] inputs@[j]).source < options.files@.len(),
                tar_appended(builder) == entries.take(k as int),
                tar_takes_all(entries, k as int),
            decreases inputs@.len() - k,
        {
            let input = &inputs[k];
            let file = &options.files[input.source];
            let kind = if file.fstype == ArchiveFileEntityType::Directory {
                tar::EntryType::Directory
            } else {
                tar::EntryType::Regular
            };
            assert(input_views(inputs@)[k as int] == input@);
            assert(entries[k as int] == tar_input(input@, options.files@));
            let appended = tar_append(
                &mut builder,
                input.name.as_str(),
                kind,
                &file.content,
                file.mode,
                file.modified,
            );
            match appended.into_tar_archive_result() {
                Ok(()) => {},
                Err(e) => {
                    proof {
                        assert(!tar_takes_all(entries, k + 1));
                        lemma_tar_takes_all_is_monotone(entries, k + 1, entries.len() as int);
                    }
                    return Err(e);
                },
            }
            assert(entries.take(k as int).push(entries[k as int]) =~= entries.take(k + 1));
            k += 1;
        }
        assert(entries.take(inputs@.len() as int) =~= entries);
        let plain = match tar_finish(builder) {
            Ok(bytes) => bytes,
            Err(e) => {
                return Err(ArchiveError::Io(e));
            },
        };
        match Self::writer(compression, &plain) {
            Ok(bytes) => Ok((summarize(options, total, &bytes), bytes)),
            Err(e) => Err(e),
        }
    }
}

proof fn lemma_tar_records_are_alike(
    plain: Seq<u8>,
    first: Seq<char>,
    second: Seq<char>,
    upto: int,
)
    ensures
        all_unpack_alike(
            readable_records(tar_headers(plain, first), upto),
            readable_records(tar_headers(plain, second), upto),
        ),
    decreases upto,
{
    if upto > 0 {
        lemma_tar_records_are_alike(plain, first, second, upto - 1);
        let a = readable_records(tar_headers(plain, first), upto - 1);
        let b = readable_records(tar_headers(plain, second), upto - 1);
        match tar_header_at(plain, (upto - 1) as usize) {
            Some(h) => {
                let x = tar_record(h, (upto - 1) as usize, first);
                let y = tar_record(h, (upto - 1) as usize, second);
                assert(unpack_alike(x, y));
                assert forall|i: int| 0 <= i < a.push(x).len() implies unpack_alike(
                    #[trigger] a.push(x)[i],
                    b.push(y)[i],
                ) by {
                    if i < a.len() {
                        assert(unpack_alike(a[i], b[i]));
                    }
                }
            },
            None => {},
        }
    }
}

/// A tar archive under a compression is unpacked as the tar archive under
/// it: two archives whose sources decode to one tar stream, whatever the
/// compression of each, are unpacked to the same writes and the same
/// reports under one policy, where their sources are called alike.
pub proof fn lemma_compressed_tar_unpacks_as_plain<'a>(
    packed: TarArchive<'a>,
    plain: TarArchive<'a>,
    password: Option<Seq<char>>,
    p: ExtractPolicy,
    label: Seq<char>,
)
    requires
        tar_plain(packed.bytes()) is Some,
        tar_plain(packed.bytes()) == tar_plain(plain.bytes()),
    ensures
        packed.records(password) is Some,
        plain.records(password) is Some,
        extraction(packed.records(password).unwrap(), packed.contents(password), p, label)
            == extraction(plain.records(password).unwrap(), plain.contents(password), p, label),
{
    let stream = tar_plain(packed.bytes()).unwrap();
    let first = tar_compression(packed.bytes()).unwrap().label();
    let second = tar_compression(plain.bytes()).unwrap().label();
    lemma_tar_records_are_alike(stream, first, second, tar_count(stream) as int);
    lemma_alike_records_unpack_alike(
        tar_records(stream, first),
        tar_records(stream, second),
        tar_contents(stream),
        p,
        label,
    );
}

} // verus!
