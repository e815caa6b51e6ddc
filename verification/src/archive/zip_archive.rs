//! Zip containers, read and written through the `zip` crate.
use vstd::prelude::*;
use crate::archive::archived::Archived;
use std::io::{Read, Write};
use chrono::{Datelike, Timelike};
use crate::archive::archive_base::{ArchiveError, ArchiveFileEntityType, Fault};
use crate::archive::codecs::{ArchiveCompression, CompressionTag};
use crate::archive::create::{input_views, plan_inputs, planned_inputs, summarize, InputView};
use crate::archive::datasource::{DataSource, DataSourceView};
use crate::archive::entity::{
    modified, modified_at, total_file_size, AdditionalMetadata, ArchiveFileEntity,
    ArchiveMetadata, CreateResult, EntityView,
};
use crate::archive::events::{emit, event_views, ArchiveEvent, EventView};
use crate::archive::extract::{
    contents_of, extract_with, read_or, record_views, EntryReader, EntryRecord, ExtractedEntry,
    RecordView,
};
use crate::archive::listing::{
    entities_from, open_with, readable_records, unreadable_name, unreadable_reports,
};
use crate::archive::options::{
    CreateOptions, ExtractOptions, ListOptions, OpenOptions, SourceFile,
};

verus! {

/// An archive that the `zip` crate has opened over a copy of the bytes.
#[verifier::external_body]
pub struct ZipHandle {
    inner: zip::ZipArchive<std::io::Cursor<Vec<u8>>>,
}

/// What the central directory of a zip archive says of one entry.
#[derive(Debug)]
pub struct ZipEntryHeader {
    /// The name as it is stored.
    pub name: String,
    /// The name as a path that stays below the directory it is unpacked to;
    /// absent where the stored name does not.
    pub enclosed_name: Option<String>,
    pub size: u64,
    pub compressed_size: u64,
    /// When the entry was last modified, in seconds since the Unix epoch,
    /// where the stored date is a valid one.
    pub modified: Option<i64>,
    /// The name of the compression method.
    pub compression: String,
    pub unix_mode: Option<u32>,
    /// Whether the compression method is the AES marker, which stands for no
    /// method that can be read.
    pub aes_method: bool,
    /// The extra field of the entry, as it is stored.
    pub extra: Vec<u8>,
}

/// The mathematical value of a [`ZipEntryHeader`].
pub struct ZipHeaderView {
    pub name: Seq<char>,
    pub enclosed_name: Option<Seq<char>>,
    pub size: u64,
    pub compressed_size: u64,
    pub modified: Option<i64>,
    pub compression: Seq<char>,
    pub unix_mode: Option<u32>,
    pub aes_method: bool,
    pub extra: Seq<u8>,
}

impl View for ZipEntryHeader {
    type V = ZipHeaderView;

    open spec fn view(&self) -> ZipHeaderView {
        ZipHeaderView {
            name: self.name@,
            enclosed_name: match self.enclosed_name {
                Some(n) => Some(n@),
                None => None,
            },
            size: self.size,
            compressed_size: self.compressed_size,
            modified: self.modified,
            compression: self.compression@,
            unix_mode: self.unix_mode,
            aes_method: self.aes_method,
            extra: self.extra@,
        }
    }
}

/// The bytes that an open zip archive reads.
pub uninterp spec fn zip_source(archive: ZipHandle) -> Seq<u8>;

/// The number of entries in the central directory of these bytes, where they
/// hold a zip archive that can be opened.
pub uninterp spec fn zip_count(bytes: Seq<u8>) -> Option<nat>;

/// The header of the entry with this number, where it can be read.
pub uninterp spec fn zip_header_at(bytes: Seq<u8>, index: usize) -> Option<ZipHeaderView>;

/// The content of the entry with this number, where it can be read without
/// a password.
pub uninterp spec fn zip_content_at(bytes: Seq<u8>, index: usize) -> Option<Seq<u8>>;

/// What reading the entry with this number with this password ends in: its
/// content, the refusal of the password (the inner `None`), or an error of
/// the archive (the outer `None`).
pub uninterp spec fn zip_decrypted_content_at(
    bytes: Seq<u8>,
    index: usize,
    password: Seq<char>,
) -> Option<Option<Seq<u8>>>;

/// The comment of the archive that these bytes hold.
pub uninterp spec fn zip_comment_of(bytes: Seq<u8>) -> Seq<u8>;

/// Opens a copy of the bytes with `zip::ZipArchive::new`. Trusted: whether
/// that succeeds depends on the bytes alone.
#[verifier::external_body]
fn zip_open(bytes: &Vec<u8>) -> (r: Result<ZipHandle, zip::result::ZipError>)
    ensures
        r is Ok <==> zip_count(bytes@) is Some,
        r matches Ok(archive) ==> zip_source(archive) == bytes@,
{
    Ok(ZipHandle { inner: zip::ZipArchive::new(std::io::Cursor::new(bytes.clone()))? })
}

/// `zip::ZipArchive::len`: the number of entries of an open archive.
#[verifier::external_body]
fn zip_len(archive: &ZipHandle) -> (n: usize)
    ensures
        zip_count(zip_source(*archive)) == Some(n as nat),
{
    archive.inner.len()
}

/// Whether an extra field may hold the AES marker: the two bytes of its
/// number stand somewhere in it, one after the other.
pub open spec fn may_hold_aes(extra: Seq<u8>) -> bool {
    exists|i: int| 0 <= i && i + 1 < extra.len() && #[trigger] extra[i] == 0x01 && extra[i + 1] == 0x99
}

/// The least size of the stored form of an entry under AES: a salt of up to
/// 16 bytes, 2 bytes that check the password, and 10 bytes that
/// authenticate the content.
pub const AES_FRAME: u64 = 28;

/// Whether the content of an entry with this header can be asked for: its
/// method is not the AES marker; where it is asked for without a key, its
/// extra field holds no AES marker either; and where it is asked for with
/// one and its extra field may hold the marker, its stored form is not
/// shorter than the frame of an entry under AES.
pub open spec fn zip_can_be_read(h: ZipHeaderView, keyed: bool) -> bool {
    &&& !h.aes_method
    &&& may_hold_aes(h.extra) ==> keyed && h.compressed_size >= AES_FRAME
}

/// Asks `zip::ZipArchive::by_index_raw` for an entry, which needs no
/// password, and copies what its accessors give. Trusted: the outcome depends
/// on the bytes and the number alone.
#[verifier::external_body]
fn zip_header(archive: &mut ZipHandle, index: usize) -> (r:
    Result<ZipEntryHeader, zip::result::ZipError>)
    ensures
        zip_source(*final(archive)) == zip_source(*old(archive)),
        r is Ok <==> zip_header_at(zip_source(*old(archive)), index) is Some,
        r matches Ok(h) ==> zip_header_at(zip_source(*old(archive)), index) == Some(h@),
{
    let f = archive.inner.by_index_raw(index)?;
    Ok(ZipEntryHeader {
        name: f.name().to_string(),
        enclosed_name: f.enclosed_name().map(|p| p.to_string_lossy().into_owned()),
        size: f.size(),
        compressed_size: f.compressed_size(),
        modified: f.last_modified().to_time().ok().map(|t| t.unix_timestamp()),
        compression: f.compression().to_string(),
        unix_mode: f.unix_mode(),
        aes_method: matches!(f.compression(), zip::CompressionMethod::Aes),
        extra: f.extra_data().to_vec(),
    })
}

/// Reads an entry to its end through `zip::ZipArchive::by_index`; a failed
/// read comes back as `ZipError::Io`. The entry has to be one that can be
/// read without a password: `by_index` gives up on an entry that bears the
/// AES marker, in its method or in its extra field. Trusted: the outcome
/// depends on the bytes and the number alone.
#[verifier::external_body]
fn zip_read(archive: &mut ZipHandle, index: usize) -> (r: Result<
    Vec<u8>,
    zip::result::ZipError,
>)
    requires
        zip_header_at(zip_source(*old(archive)), index) matches Some(h) && zip_can_be_read(h, false),
    ensures
        zip_source(*final(archive)) == zip_source(*old(archive)),
        r is Ok <==> zip_content_at(zip_source(*old(archive)), index) is Some,
        r matches Ok(out) ==> zip_content_at(zip_source(*old(archive)), index) == Some(out@),
{
    let mut out = Vec::new();
    archive.inner.by_index(index)?.read_to_end(&mut out)?;
    Ok(out)
}

/// Reads an entry to its end through `zip::ZipArchive::by_index_decrypt`,
/// which tells a password that it refuses from an error of the archive; a
/// failed read comes back as `ZipError::Io`. The method of the entry has to
/// be one that can be read: the reader gives up on the AES marker; and an
/// entry under AES has to be as long as its frame, which the reader takes
/// off its length. Trusted: the outcome depends on the bytes, the number
/// and the password alone.
#[verifier::external_body]
fn zip_read_decrypted(
    archive: &mut ZipHandle,
    index: usize,
    password: &str,
) -> (r: Result<Result<Vec<u8>, zip::result::InvalidPassword>, zip::result::ZipError>)
    requires
        zip_header_at(zip_source(*old(archive)), index) matches Some(h) && zip_can_be_read(h, true),
    ensures
        zip_source(*final(archive)) == zip_source(*old(archive)),
        match zip_decrypted_content_at(zip_source(*old(archive)), index, password@) {
            Some(Some(content)) => r matches Ok(Ok(out)) && out@ == content,
            Some(None) => r matches Ok(Err(_)),
            None => r is Err,
        },
{
    let mut out = Vec::new();
    match archive.inner.by_index_decrypt(index, password.as_bytes())? {
        Ok(mut f) => {
            f.read_to_end(&mut out)?;
            Ok(Ok(out))
        },
        Err(e) => Ok(Err(e)),
    }
}

/// `zip::ZipArchive::comment`: the comment of an open archive.
#[verifier::external_body]
fn zip_comment(archive: &ZipHandle) -> (r: Vec<u8>)
    ensures
        r@ == zip_comment_of(zip_source(*archive)),
{
    archive.inner.comment().to_vec()
}

/// The text that bytes encode in UTF-8 (`String::from_utf8`), where they do.
#[verifier::external_body]
fn utf8_text(bytes: Vec<u8>) -> (r: Option<String>)
    ensures
        r is Some <==> vstd::utf8::valid_utf8(bytes@),
        r matches Some(s) ==> vstd::utf8::encode_utf8(s@) == bytes@,
{
    String::from_utf8(bytes).ok()
}

/// An entry of a zip archive is a directory where its stored name ends in a
/// slash or a backslash.
pub open spec fn zip_is_directory(name: Seq<char>) -> bool {
    name.len() > 0 && (name.last() == '/' || name.last() == '\\')
}

/// The entity that a zip header is listed as: under its enclosed name, or
/// under no name where it has none; a file with both its sizes, or a
/// directory without.
pub open spec fn zip_entity(h: ZipHeaderView) -> EntityView {
    EntityView {
        name: match h.enclosed_name {
            Some(n) => n,
            None => Seq::empty(),
        },
        size: if zip_is_directory(h.name) {
            None
        } else {
            Some(h.size)
        },
        compressed_size: if zip_is_directory(h.name) {
            None
        } else {
            Some(h.compressed_size)
        },
        last_modified: modified_at(
            match h.modified {
                Some(s) => Some(s as int),
                None => None,
            },
        ),
        compression: Some(h.compression),
        fstype: if zip_is_directory(h.name) {
            ArchiveFileEntityType::Directory
        } else {
            ArchiveFileEntityType::File
        },
    }
}

/// The record of the entry with this number in a zip archive.
pub open spec fn zip_record(h: ZipHeaderView, index: usize) -> RecordView {
    RecordView { index, entity: zip_entity(h), link_target: None, mode: h.unix_mode }
}

/// The record of each entry of the zip archive in `bytes`, by its number.
pub open spec fn zip_headers(bytes: Seq<u8>) -> spec_fn(usize) -> Option<RecordView> {
    |i: usize|
        match zip_header_at(bytes, i) {
            Some(h) => Some(zip_record(h, i)),
            None => None,
        }
}

/// The records of the zip archive in `bytes`: one for each entry whose
/// header can be read, in the order of the central directory.
pub open spec fn zip_records(bytes: Seq<u8>) -> Seq<RecordView>
    recommends
        zip_count(bytes) is Some,
{
    readable_records(zip_headers(bytes), zip_count(bytes).unwrap() as int)
}

/// What reading with a key ends in: a password that is refused is an error
/// of its own kind; everything else that fails is an error of the archive.
pub open spec fn keyed_content(outcome: Option<Option<Seq<u8>>>) -> Result<Seq<u8>, Fault> {
    match outcome {
        Some(Some(content)) => Ok(content),
        Some(None) => Err(Fault::Password),
        None => Err(Fault::Zip),
    }
}

/// What reading the entry with this number ends in, with a password where
/// one is given. An entry that bears the AES marker in its method is of an
/// unsupported compression. One that may bear it in its extra field is read
/// with a key even where no password is given, with the empty one, since
/// the reader without a key gives up on such an entry; where its stored
/// form is shorter than the frame of an entry under AES, it is of an
/// unsupported compression too.
pub open spec fn zip_content(bytes: Seq<u8>, password: Option<Seq<char>>, i: usize) -> Result<
    Seq<u8>,
    Fault,
> {
    match zip_header_at(bytes, i) {
        Some(h) => if h.aes_method {
            Err(Fault::UnsupportedCompression)
        } else if may_hold_aes(h.extra) {
            if h.compressed_size < AES_FRAME {
                Err(Fault::UnsupportedCompression)
            } else {
                keyed_content(
                    zip_decrypted_content_at(
                        bytes,
                        i,
                        match password {
                            Some(p) => p,
                            None => Seq::empty(),
                        },
                    ),
                )
            }
        } else {
            match password {
                Some(p) => keyed_content(zip_decrypted_content_at(bytes, i, p)),
                None => read_or(zip_content_at(bytes, i), Fault::Zip),
            }
        },
        None => Err(Fault::Zip),
    }
}

/// What reading each entry of the zip archive in `bytes` ends in, by the
/// entry's number.
pub open spec fn zip_contents(bytes: Seq<u8>, password: Option<Seq<char>>) -> spec_fn(
    usize,
) -> Result<Seq<u8>, Fault> {
    |i: usize| zip_content(bytes, password, i)
}

/// Whether an extra field may hold the AES marker.
pub fn holds_aes_marker(extra: &Vec<u8>) -> (r: bool)
    ensures
        r == may_hold_aes(extra@),
{
    let mut i: usize = 0;
    while i < extra.len() && extra.len() - i > 1
        invariant
            i <= extra@.len(),
            forall|j: int| 0 <= j < i && j + 1 < extra@.len() ==> !(#[trigger] extra@[j] == 0x01
                && extra@[j + 1] == 0x99),
        decreases extra@.len() - i,
    {
        if extra[i] == 0x01 && extra[i + 1] == 0x99 {
            return true;
        }
        i += 1;
    }
    false
}

/// Whether a stored name is that of a directory.
pub fn is_directory_name(name: &str) -> (r: bool)
    ensures
        r == zip_is_directory(name@),
{
    let chars = crate::archive::text::chars_of(name);
    chars.len() > 0 && (chars[chars.len() - 1] == '/' || chars[chars.len() - 1] == '\\')
}

/// A zip archive over a source.
pub struct ZipArchive<'a> {
    pub(crate) source: DataSource<'a>,
}

/// An open zip archive that yields the content of its entries.
pub struct ZipEntries {
    archive: ZipHandle,
    password: Option<String>,
}

impl ZipEntries {
    /// The bytes that the entries are read from.
    pub closed spec fn bytes(&self) -> Seq<u8> {
        zip_source(self.archive)
    }

    /// The password that the entries are read with.
    pub closed spec fn password(&self) -> Option<Seq<char>> {
        match self.password {
            Some(p) => Some(p@),
            None => None,
        }
    }
}

impl EntryReader for ZipEntries {
    closed spec fn content(&self, index: usize) -> Result<Seq<u8>, Fault> {
        zip_content(self.bytes(), self.password(), index)
    }

    fn read(&mut self, index: usize) -> (r: Result<Vec<u8>, ArchiveError>)
        ensures
            final(self).bytes() == old(self).bytes(),
            final(self).password() == old(self).password(),
    {
        let header = match zip_header(&mut self.archive, index) {
            Ok(h) => h,
            Err(e) => {
                return Err(ArchiveError::Zip(e));
            },
        };
        if header.aes_method {
            return Err(ArchiveError::UnsupportedCompression(ArchiveCompression::Aes));
        }
        if holds_aes_marker(&header.extra) && header.compressed_size < AES_FRAME {
            return Err(ArchiveError::UnsupportedCompression(ArchiveCompression::Aes));
        }
        let keyed = match &self.password {
            None => {
                if !holds_aes_marker(&header.extra) {
                    return match zip_read(&mut self.archive, index) {
                        Ok(out) => Ok(out),
                        Err(e) => Err(ArchiveError::Zip(e)),
                    };
                }
                proof {
                    reveal_strlit("");
                    assert(""@ =~= Seq::<char>::empty());
                }
                zip_read_decrypted(&mut self.archive, index, "")
            },
            Some(p) => zip_read_decrypted(&mut self.archive, index, p.as_str()),
        };
        match keyed {
            Ok(Ok(out)) => Ok(out),
            Ok(Err(e)) => Err(ArchiveError::Password(e)),
            Err(e) => Err(ArchiveError::Zip(e)),
        }
    }
}

impl<'a> ZipArchive<'a> {
    /// The source that the archive reads.
    pub closed spec fn source(&self) -> crate::archive::datasource::DataSourceView {
        self.source@
    }

    /// The entity that a header is listed as.
    pub fn entity_of(header: &ZipEntryHeader) -> (r: ArchiveFileEntity)
        ensures
            r@ == zip_entity(header@),
    {
        let name = match &header.enclosed_name {
            Some(n) => n.clone(),
            None => String::new(),
        };
        let (size, compressed_size, fstype) = if is_directory_name(header.name.as_str()) {
            (None, None, ArchiveFileEntityType::Directory)
        } else {
            (Some(header.size), Some(header.compressed_size), ArchiveFileEntityType::File)
        };
        ArchiveFileEntity::new(
            name,
            size,
            compressed_size,
            modified(header.modified),
            Some(header.compression.clone()),
            fstype,
        )
    }

    /// Opens the archive and reads the record of every entry. An entry whose
    /// header cannot be read is reported and left out.
    fn scan(&self, password: &Option<String>, events: &mut Vec<ArchiveEvent>) -> (r: Result<
        (ZipEntries, Vec<EntryRecord>),
        ArchiveError,
    >)
        ensures
            r is Ok <==> zip_count(self.bytes()) is Some,
            r matches Err(e) ==> e is Zip && final(events)@ == old(events)@,
            r matches Ok(found) ==> {
                &&& found.0.bytes() == self.bytes()
                &&& found.0.password() == match password {
                    Some(p) => Some(p@),
                    None => None,
                }
                &&& record_views(found.1@) == zip_records(self.bytes())
                &&& event_views(final(events)@) == event_views(old(events)@) + unreadable_reports(
                    zip_headers(self.bytes()),
                    Fault::Zip,
                    zip_count(self.bytes()).unwrap() as int,
                )
            },
    {
        let mut archive = match zip_open(self.source.bytes()) {
            Ok(a) => a,
            Err(e) => {
                return Err(ArchiveError::Zip(e));
            },
        };
        let ghost bytes = self.bytes();
        let ghost headers = zip_headers(bytes);
        let n = zip_len(&archive);
        let mut records: Vec<EntryRecord> = Vec::new();
        let mut i: usize = 0;
        while i < n
            invariant
                i <= n,
                zip_source(archive) == bytes,
                headers == zip_headers(bytes),
                record_views(records@) == readable_records(headers, i as int),
                event_views(events@) == event_views(old(events)@) + unreadable_reports(
                    headers,
                    Fault::Zip,
                    i as int,
                ),
            decreases n - i,
        {
            let ghost before = record_views(records@);
            match zip_header(&mut archive, i) {
                Ok(h) => {
                    let record = EntryRecord {
                        index: i,
                        entity: Self::entity_of(&h),
                        link_target: None,
                        mode: h.unix_mode,
                    };
                    records.push(record);
                    assert(record_views(records@) =~= before.push(record@));
                },
                Err(e) => {
                    proof {
                        reveal_strlit("???");
                    }
                    emit(events, ArchiveEvent::FailedToReadEntry("???".to_owned(), ArchiveError::Zip(e)));
                    assert(event_views(events@) =~= event_views(old(events)@) + unreadable_reports(
                        headers,
                        Fault::Zip,
                        i as int,
                    ).push(EventView::FailedToReadEntry(unreadable_name(), Fault::Zip)));
                },
            }
            i += 1;
        }
        let password = match password {
            Some(p) => Some(p.clone()),
            None => None,
        };
        Ok((ZipEntries { archive, password }, records))
    }
}

/// The compression methods that an entry of a zip archive can be written
/// with.
#[derive(Debug, PartialEq, Eq, Clone, Copy, Structural)]
pub enum ZipMethod {
    Stored,
    Deflated,
    Bzip2,
    Zstd,
    Aes,
}

/// The method that a zip archive is written with for a compression; gzip,
/// xz and unknown compressions have none.
pub open spec fn zip_method_of(tag: CompressionTag) -> Option<ZipMethod> {
    match tag {
        CompressionTag::Uncompressed => Some(ZipMethod::Stored),
        CompressionTag::Deflate => Some(ZipMethod::Deflated),
        CompressionTag::Bzip2 => Some(ZipMethod::Bzip2),
        CompressionTag::Zstd => Some(ZipMethod::Zstd),
        CompressionTag::Aes => Some(ZipMethod::Aes),
        CompressionTag::Gzip => None,
        CompressionTag::Lzma => None,
        CompressionTag::Unknown(_) => None,
    }
}

/// The compression that a zip archive is written with where none is asked
/// for. It has no method, so that one has to be asked for.
pub open spec fn default_zip_compression() -> CompressionTag {
    CompressionTag::Gzip
}

/// The compression that the options ask for, or the default.
pub open spec fn asked_compression(compression: Option<ArchiveCompression>) -> CompressionTag {
    match compression {
        Some(c) => c@,
        None => default_zip_compression(),
    }
}

/// A file of more than 4 GiB less one byte needs the large-file form.
pub open spec fn needs_large_file(len: nat) -> bool {
    len > u32::MAX
}

/// The first and the last second that the calendar of a zip archive holds:
/// the first of the year 1980 and the last of the year 2107, in seconds
/// since the Unix epoch.
pub const DOS_FIRST: u64 = 315_532_800;

pub const DOS_LAST: u64 = 4_354_819_199;

/// The moment that an entry is stamped with: that of its input, or the
/// first moment of the calendar of a zip archive where that calendar does
/// not hold it.
pub open spec fn dos_seconds(modified: u64) -> i64 {
    if DOS_FIRST <= modified <= DOS_LAST {
        modified as i64
    } else {
        DOS_FIRST as i64
    }
}

/// The moment that an entry is stamped with.
pub fn stamped_seconds(modified: u64) -> (r: i64)
    ensures
        r == dos_seconds(modified),
        DOS_FIRST <= r <= DOS_LAST,
{
    if DOS_FIRST <= modified && modified <= DOS_LAST {
        modified as i64
    } else {
        DOS_FIRST as i64
    }
}

/// The date and the time of day of a moment, on the clock of UTC, as the
/// two numbers that a zip archive keeps them in.
pub uninterp spec fn dos_stamp_of(seconds: i64) -> (u16, u16);

/// Takes a moment apart with `chrono::DateTime::from_timestamp` and packs
/// its parts with `zip::DateTime::from_date_and_time`, `datepart` and
/// `timepart`. The moment has to lie within the calendar of a zip archive.
/// Trusted: the two numbers depend on the moment alone.
#[verifier::external_body]
fn dos_stamp(seconds: i64) -> (r: (u16, u16))
    requires
        DOS_FIRST <= seconds <= DOS_LAST,
    ensures
        r == dos_stamp_of(seconds),
{
    let at = chrono::DateTime::from_timestamp(seconds, 0).unwrap_or_default().naive_utc();
    let (year, month, day) = (at.year() as u16, at.month() as u8, at.day() as u8);
    let (hour, minute, second) = (at.hour() as u8, at.minute() as u8, at.second() as u8);
    let at = zip::DateTime::from_date_and_time(year, month, day, hour, minute, second);
    let at = at.unwrap_or_default();
    (at.datepart(), at.timepart())
}

/// One entry as it is handed to the `zip` crate to be written.
pub struct ZipInputView {
    pub name: Seq<char>,
    pub is_directory: bool,
    pub method: ZipMethod,
    /// Whether the entry is written in the large-file form.
    pub large: bool,
    pub content: Seq<u8>,
    /// The date and the time of day that the entry is stamped with.
    pub stamp: (u16, u16),
}

/// A zip archive that the `zip` crate is writing into memory.
#[verifier::external_body]
pub struct ZipBuilder {
    inner: zip::ZipWriter<std::io::Cursor<Vec<u8>>>,
}

/// The entries that were added to an archive that is being written.
pub uninterp spec fn zip_added(builder: ZipBuilder) -> Seq<ZipInputView>;

/// Whether the `zip` crate takes an entry after those that were added.
pub uninterp spec fn zip_takes(added: Seq<ZipInputView>, entry: ZipInputView) -> bool;

/// The archive that the `zip` crate makes of a sequence of entries, where it
/// can close it.
pub uninterp spec fn zip_image_of(added: Seq<ZipInputView>) -> Option<Seq<u8>>;

/// `zip::ZipWriter::new` over an empty buffer.
#[verifier::external_body]
fn zip_builder_new() -> (r: ZipBuilder)
    ensures
        zip_added(r) == Seq::<ZipInputView>::empty(),
{
    ZipBuilder { inner: zip::ZipWriter::new(std::io::Cursor::new(Vec::new())) }
}

/// `zip::ZipWriter::add_directory`, under the default
/// `zip::write::FileOptions` with this method, no compression level, and
/// this date and time of day (`zip::DateTime::from_msdos`) in place of the
/// time of writing. Trusted: whether the entry is taken depends on it and
/// on those added before, and an entry that is taken is added.
#[verifier::external_body]
fn zip_add_directory(
    builder: &mut ZipBuilder,
    name: &str,
    method: ZipMethod,
    stamp: (u16, u16),
) -> (r: Result<(), zip::result::ZipError>)
    ensures
        r is Ok <==> zip_takes(
            zip_added(*old(builder)),
            ZipInputView {
                name: name@,
                is_directory: true,
                method,
                large: false,
                content: Seq::empty(),
                stamp,
            },
        ),
        r is Ok ==> zip_added(*final(builder)) == zip_added(*old(builder)).push(
            ZipInputView {
                name: name@,
                is_directory: true,
                method,
                large: false,
                content: Seq::empty(),
                stamp,
            },
        ),
{
    let method = match method {
        ZipMethod::Stored => zip::CompressionMethod::Stored,
        ZipMethod::Deflated => zip::CompressionMethod::Deflated,
        ZipMethod::Bzip2 => zip::CompressionMethod::Bzip2,
        ZipMethod::Zstd => zip::CompressionMethod::Zstd,
        ZipMethod::Aes => zip::CompressionMethod::Aes,
    };
    let options = zip::write::FileOptions::default().compression_method(method);
    let (date, time) = stamp;
    let options = options.last_modified_time(zip::DateTime::from_msdos(date, time));
    builder.inner.add_directory(name, options.compression_level(None))
}

/// `zip::ZipWriter::start_file`, under the default `zip::write::FileOptions`
/// with this method, no compression level, this date and time of day, and
/// the large-file form where `large` says so; then the content through
/// `write_all`, whose failure comes back as `ZipError::Io`. Trusted as
/// [`zip_add_directory`] is.
#[verifier::external_body]
fn zip_add_file(
    builder: &mut ZipBuilder,
    name: &str,
    method: ZipMethod,
    large: bool,
    content: &Vec<u8>,
    stamp: (u16, u16),
) -> (r: Result<(), zip::result::ZipError>)
    ensures
        r is Ok <==> zip_takes(
            zip_added(*old(builder)),
            ZipInputView {
                name: name@,
                is_directory: false,
                method,
                large,
                content: content@,
                stamp,
            },
        ),
        r is Ok ==> zip_added(*final(builder)) == zip_added(*old(builder)).push(
            ZipInputView {
                name: name@,
                is_directory: false,
                method,
                large,
                content: content@,
                stamp,
            },
        ),
{
    let method = match method {
        ZipMethod::Stored => zip::CompressionMethod::Stored,
        ZipMethod::Deflated => zip::CompressionMethod::Deflated,
        ZipMethod::Bzip2 => zip::CompressionMethod::Bzip2,
        ZipMethod::Zstd => zip::CompressionMethod::Zstd,
        ZipMethod::Aes => zip::CompressionMethod::Aes,
    };
    let options = zip::write::FileOptions::default().compression_method(method);
    let (date, time) = stamp;
    let options = options.last_modified_time(zip::DateTime::from_msdos(date, time));
    builder.inner.start_file(name, options.compression_level(None).large_file(large))?;
    builder.inner.write_all(content)?;
    Ok(())
}

/// `zip::ZipWriter::finish`: writes the central directory and hands the
/// buffer out. Trusted: the archive depends on the entries alone, each of
/// which bears the date and the time of day that it was added with.
#[verifier::external_body]
fn zip_finish(builder: ZipBuilder) -> (r: Result<Vec<u8>, zip::result::ZipError>)
    ensures
        r is Ok <==> zip_image_of(zip_added(builder)) is Some,
        r matches Ok(out) ==> zip_image_of(zip_added(builder)) == Some(out@),
{
    let mut builder = builder;
    Ok(builder.inner.finish()?.into_inner())
}

/// The entry that is written for a planned input.
pub open spec fn zip_input(input: InputView, files: Seq<SourceFile>, method: ZipMethod) -> ZipInputView {
    let file = files[input.source as int];
    if file.fstype == ArchiveFileEntityType::Directory {
        ZipInputView {
            name: input.name,
            is_directory: true,
            method,
            large: false,
            content: Seq::empty(),
            stamp: dos_stamp_of(dos_seconds(file.modified)),
        }
    } else {
        ZipInputView {
            name: input.name,
            is_directory: false,
            method,
            large: needs_large_file(file.content@.len()),
            content: file.content@,
            stamp: dos_stamp_of(dos_seconds(file.modified)),
        }
    }
}

/// The entries that are written for the inputs of the options, in order.
pub open spec fn zip_inputs(options: CreateOptions, method: ZipMethod) -> Seq<ZipInputView> {
    planned_inputs(
        options.files@,
        options.source@,
        options.include_hidden,
        options.files@.len() as int,
    ).map_values(|input: InputView| zip_input(input, options.files@, method))
}

/// Whether the `zip` crate takes each of the first `upto` entries in its
/// turn.
pub open spec fn zip_takes_all(entries: Seq<ZipInputView>, upto: int) -> bool
    decreases upto,
{
    upto <= 0 || (zip_takes_all(entries, upto - 1) && zip_takes(
        entries.take(upto - 1),
        entries[upto - 1],
    ))
}

/// The archive that is created from the options, where there is one: what
/// the `zip` crate makes of the entries. There is none where the
/// compression that is asked for has no method, where the `zip` crate
/// refuses an entry, or where it cannot close the archive.
pub open spec fn zip_creation(options: CreateOptions) -> Option<Seq<u8>> {
    match zip_method_of(asked_compression(options.archive_compression)) {
        Some(method) => {
            let entries = zip_inputs(options, method);
            if zip_takes_all(entries, entries.len() as int) {
                zip_image_of(entries)
            } else {
                None
            }
        },
        None => None,
    }
}

/// Once the `zip` crate has refused an entry, it has not taken all of any
/// longer run of entries.
proof fn lemma_zip_takes_all_is_monotone(entries: Seq<ZipInputView>, from: int, to: int)
    requires
        0 <= from <= to,
        !zip_takes_all(entries, from),
    ensures
        !zip_takes_all(entries, to),
    decreases to - from,
{
    if from < to {
        lemma_zip_takes_all_is_monotone(entries, from, to - 1);
    }
}

/// The method that a zip archive is written with for a compression.
pub fn zip_method(compression: &ArchiveCompression) -> (r: Result<ZipMethod, ArchiveError>)
    ensures
        match zip_method_of(compression@) {
            Some(m) => r == Ok::<ZipMethod, ArchiveError>(m),
            None => r matches Err(ArchiveError::UnsupportedCompression(c)) && c@ == compression@,
        },
{
    match compression {
        ArchiveCompression::Uncompressed => Ok(ZipMethod::Stored),
        ArchiveCompression::Deflate => Ok(ZipMethod::Deflated),
        ArchiveCompression::Bzip2 => Ok(ZipMethod::Bzip2),
        ArchiveCompression::Zstd => Ok(ZipMethod::Zstd),
        ArchiveCompression::Aes => Ok(ZipMethod::Aes),
        _ => Err(ArchiveError::UnsupportedCompression(compression.clone())),
    }
}

impl<'a> Archived<'a> for ZipArchive<'a> {
    open spec fn accepts(source: DataSourceView) -> bool {
        true
    }

    open spec fn label(&self) -> Seq<char> {
        self.source().label()
    }

    open spec fn bytes(&self) -> Seq<u8> {
        self.source().bytes
    }

    open spec fn records(&self, password: Option<Seq<char>>) -> Option<Seq<RecordView>> {
        if zip_count(self.bytes()) is Some {
            Some(zip_records(self.bytes()))
        } else {
            None
        }
    }

    open spec fn reports(&self, password: Option<Seq<char>>) -> Seq<EventView> {
        unreadable_reports(
            zip_headers(self.bytes()),
            Fault::Zip,
            zip_count(self.bytes()).unwrap() as int,
        )
    }

    open spec fn contents(&self, password: Option<Seq<char>>) -> spec_fn(usize) -> Result<Seq<u8>, Fault> {
        zip_contents(self.bytes(), password)
    }

    open spec fn keeps_hidden(options: CreateOptions) -> bool {
        options.include_hidden
    }

    /// The zip archive over a source. Nothing is read yet.
    fn of(source: DataSource<'a>) -> (r: Result<Self, ArchiveError>)
        ensures
            r matches Ok(a) && a.source() == source@,
    {
        Ok(ZipArchive { source })
    }

    /// Lists the entries in the order of the central directory. An entry
    /// whose header cannot be read is reported in `events` and left out; an
    /// archive that cannot be opened is an error.
    fn list(&self, options: &ListOptions, events: &mut Vec<ArchiveEvent>) -> (r: Result<
        Vec<ArchiveFileEntity>,
        ArchiveError,
    >)
        ensures
            r matches Err(e) ==> e is Zip,
    {
        match self.scan(&options.password, events) {
            Ok(found) => Ok(entities_from(&found.1)),
            Err(e) => Err(e),
        }
    }

    /// Unpacks the archive: see [`extract_with`] for what is written and
    /// reported. `existing` names the entries whose destination exists.
    fn extract(
        &self,
        options: &ExtractOptions,
        existing: &Vec<String>,
        events: &mut Vec<ArchiveEvent>,
    ) -> (r: Result<Vec<ExtractedEntry>, ArchiveError>)
        ensures
            r matches Err(e) ==> e is Zip,
    {
        let (mut entries, records) = match self.scan(&options.password, events) {
            Ok(found) => found,
            Err(e) => {
                return Err(e);
            },
        };
        let label = self.source.to_string();
        assert(contents_of(entries) =~= zip_contents(
            self.bytes(),
            match options.password {
                Some(p) => Some(p@),
                None => None,
            },
        ));
        let out = extract_with(&mut entries, &records, options, existing, label.as_str(), events);
        Ok(out)
    }

    /// What is known of the archive as a whole: its entries, the total size
    /// of its files, the size of the archive itself, and its comment where
    /// that is text.
    fn metadata(&self, events: &mut Vec<ArchiveEvent>) -> (r: Result<
        ArchiveMetadata,
        ArchiveError,
    >)
        ensures
            r matches Err(e) ==> e is Zip,
            r matches Ok(m) ==> {
                &&& m.compressed_size == self.bytes().len()
                &&& m.compression is None
                &&& m.additional matches Some(AdditionalMetadata::Zip { comment })
                &&& comment is Some <==> vstd::utf8::valid_utf8(zip_comment_of(self.bytes()))
                &&& comment matches Some(text) ==> vstd::utf8::encode_utf8(text@) == zip_comment_of(
                    self.bytes(),
                )
            },
    {
        let (entries, records) = match self.scan(&None, events) {
            Ok(found) => found,
            Err(e) => {
                return Err(e);
            },
        };
        let comment = utf8_text(zip_comment(&entries.archive));
        let entities = entities_from(&records);
        Ok(
            ArchiveMetadata {
                total_size: total_file_size(&entities),
                compressed_size: self.source.bytes().len() as u64,
                compression: None,
                entries: entities,
                additional: Some(AdditionalMetadata::Zip { comment }),
            },
        )
    }

    /// Reads the content of the entry with the exact name `options.path`.
    /// An archive that cannot be opened is an error; a name that no entry
    /// bears is `EntryNotFound`, and then nothing is read.
    fn open(&self, options: &OpenOptions) -> (r: Result<Vec<u8>, ArchiveError>)
        ensures
            zip_count(self.bytes()) is None ==> r matches Err(ArchiveError::Zip(_)),
    {
        let mut unread: Vec<ArchiveEvent> = Vec::new();
        let (mut entries, records) = match self.scan(&options.password, &mut unread) {
            Ok(found) => found,
            Err(e) => {
                return Err(e);
            },
        };
        open_with(&mut entries, &records, options.path.as_str())
    }

    /// Creates a zip archive in memory from the inputs of the options.
    ///
    /// Every entry is written with the method of the compression that is
    /// asked for; a compression without a method is refused before anything
    /// is written, and so is a missing one. A file beyond 4 GiB is written
    /// in the large-file form. Each entry is stamped with the time at which
    /// its input was last modified, so that the archive depends on the
    /// options alone. Each input is reported in `events`.
    fn create(options: &CreateOptions, events: &mut Vec<ArchiveEvent>) -> (r: Result<
        (CreateResult, Vec<u8>),
        ArchiveError,
    >)
        ensures
            r is Ok <==> zip_creation(*options) is Some,
            r matches Ok(made) ==> zip_creation(*options) == Some(made.1@),
            zip_method_of(asked_compression(options.archive_compression)) is None ==> (r matches Err(
                ArchiveError::UnsupportedCompression(c),
            ) && c@ == asked_compression(options.archive_compression) && final(events)@ == old(
                events,
            )@),
            r matches Err(e) ==> e is UnsupportedCompression || e is Zip,
            r matches Err(ArchiveError::UnsupportedCompression(_)) ==> zip_method_of(
                asked_compression(options.archive_compression),
            ) is None,
    {
        let method = match &options.archive_compression {
            Some(c) => zip_method(c),
            None => zip_method(&ArchiveCompression::Gzip),
        };
        let method = match method {
            Ok(m) => m,
            Err(e) => {
                return Err(e);
            },
        };
        let (inputs, total) = plan_inputs(options, options.include_hidden, events);
        let ghost entries = zip_inputs(*options, method);
        let mut builder = zip_builder_new();
        let mut k: usize = 0;
        while k < inputs.len()
            invariant
                k <= inputs@.len(),
                zip_method_of(asked_compression(options.archive_compression)) == Some(method),
                entries == zip_inputs(*options, method),
                entries.len() == inputs@.len(),
                input_views(inputs@) == planned_inputs(
                    options.files@,
                    options.source@,
                    options.include_hidden,
                    options.files@.len() as int,
                ),
                forall|j: int|
                    0 <= j < inputs@.len() ==> (#[trigger] inputs@[j]).source < options.files@.len(),
                zip_added(builder) == entries.take(k as int),
                zip_takes_all(entries, k as int),
            decreases inputs@.len() - k,
        {
            let input = &inputs[k];
            let file = &options.files[input.source];
            assert(input_views(inputs@)[k as int] == input@);
            assert(entries[k as int] == zip_input(input@, options.files@, method));
            let stamp = dos_stamp(stamped_seconds(file.modified));
            let added = if file.fstype == ArchiveFileEntityType::Directory {
                zip_add_directory(&mut builder, input.name.as_str(), method, stamp)
            } else {
                let large = file.content.len() > u32::MAX as usize;
                zip_add_file(
                    &mut builder,
                    input.name.as_str(),
                    method,
                    large,
                    &file.content,
                    stamp,
                )
            };
            match added {
                Ok(()) => {},
                Err(e) => {
                    proof {
                        assert(!zip_takes_all(entries, k + 1));
                        lemma_zip_takes_all_is_monotone(entries, k + 1, entries.len() as int);
                    }
                    return Err(ArchiveError::Zip(e));
                },
            }
            assert(entries.take(k as int).push(entries[k as int]) =~= entries.take(k + 1));
            k += 1;
        }
        assert(entries.take(inputs@.len() as int) =~= entries);
        match zip_finish(builder) {
            Ok(bytes) => Ok((summarize(options, total, &bytes), bytes)),
            Err(e) => Err(ArchiveError::Zip(e)),
        }
    }
}

} // verus!
