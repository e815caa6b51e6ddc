//! Entries of a container as the library reports them, and the aggregates
//! that are made of them.
use vstd::prelude::*;
use chrono::TimeZone;
use crate::archive::archive_base::ArchiveFileEntityType;
use crate::archive::codecs::ArchiveCompression;

verus! {

/// A moment in time: seconds since the Unix epoch, and the offset from UTC,
/// in seconds east, of the clock that shows it.
#[derive(Debug, PartialEq, Eq, Clone, Copy, Structural)]
pub struct Timestamp {
    pub seconds: i64,
    pub offset: i32,
}

/// Asks `chrono::Local` for the offset from UTC, in seconds east, that the
/// machine's time zone has at a Unix timestamp (`TimeZone::timestamp_opt`,
/// then `LocalResult::single`). Trusted: the offset is less than a day either
/// way, which is the range of `chrono::FixedOffset`.
#[verifier::external_body]
fn local_offset_at(timestamp: i64) -> (r: Option<i32>)
    ensures
        r matches Some(offset) ==> -86_400 < offset < 86_400,
{
    chrono::Local.timestamp_opt(timestamp, 0).single().map(|at| at.offset().local_minus_utc())
}

/// The error of a timestamp that the calendar cannot show
/// (`std::io::ErrorKind::InvalidInput`).
#[verifier::external_body]
fn invalid_timestamp() -> std::io::Error {
    std::io::Error::new(std::io::ErrorKind::InvalidInput, "Invalid timestamp in tar archive")
}

/// The first second of the year 0 and the last second of the year 9999, in
/// seconds since the Unix epoch: the moments that the calendar shows on any
/// machine.
pub const FIRST_SECOND: i64 = -62_167_219_200;

pub const LAST_SECOND: i64 = 253_402_300_799;

/// Whether the calendar shows the moment of a Unix timestamp on any machine.
pub open spec fn is_calendar_second(timestamp: int) -> bool {
    FIRST_SECOND <= timestamp <= LAST_SECOND
}

/// The moment of a Unix timestamp on the machine's local clock, or on that
/// of UTC where the local clock is not known.
fn on_local_clock(timestamp: i64) -> (r: Timestamp)
    ensures
        r.seconds == timestamp,
        -86_400 < r.offset < 86_400,
{
    match local_offset_at(timestamp) {
        Some(offset) => Timestamp { seconds: timestamp, offset },
        None => Timestamp { seconds: timestamp, offset: 0 },
    }
}

/// The moment of a Unix timestamp, shown on the machine's local clock. The
/// moment is the one given, whatever the time zone. A timestamp within the
/// years 0 to 9999 is always shown; one outside them is shown where the
/// machine's calendar reaches that far, and refused where it does not.
pub fn datetime_from_timestamp(timestamp: i64) -> (r: Result<Timestamp, std::io::Error>)
    ensures
        is_calendar_second(timestamp as int) ==> r is Ok,
        r matches Ok(at) ==> at.seconds == timestamp && -86_400 < at.offset < 86_400,
{
    if FIRST_SECOND <= timestamp && timestamp <= LAST_SECOND {
        return Ok(on_local_clock(timestamp));
    }
    match local_offset_at(timestamp) {
        Some(offset) => Ok(Timestamp { seconds: timestamp, offset }),
        None => Err(invalid_timestamp()),
    }
}

/// The moment that an entry was last modified at, where its container gives
/// one.
pub open spec fn modified_at(seconds: Option<int>) -> Option<i64> {
    match seconds {
        Some(s) => if i64::MIN <= s <= i64::MAX {
            Some(s as i64)
        } else {
            None
        },
        None => None,
    }
}

/// The moment of a timestamp that a container gives, on the local clock.
pub fn modified(seconds: Option<i64>) -> (r: Option<Timestamp>)
    ensures
        match seconds {
            Some(s) => r matches Some(at) && at.seconds == s && -86_400 < at.offset < 86_400,
            None => r is None,
        },
{
    match seconds {
        Some(s) => Some(on_local_clock(s)),
        None => None,
    }
}

/// One entry of a container.
#[derive(Debug)]
pub struct ArchiveFileEntity {
    pub(crate) name: String,
    pub(crate) size: Option<u64>,
    pub(crate) compressed_size: Option<u64>,
    pub(crate) last_modified: Option<Timestamp>,
    pub(crate) compression: Option<String>,
    pub(crate) fstype: ArchiveFileEntityType,
}

/// The mathematical value of an [`ArchiveFileEntity`]. Of the time of the
/// last change it keeps the moment, in seconds since the Unix epoch, and not
/// the clock that shows it.
pub struct EntityView {
    pub name: Seq<char>,
    pub size: Option<u64>,
    pub compressed_size: Option<u64>,
    pub last_modified: Option<i64>,
    pub compression: Option<Seq<char>>,
    pub fstype: ArchiveFileEntityType,
}

/// Whether an offset from UTC is less than a day either way.
pub open spec fn is_offset(offset: i32) -> bool {
    -86_400 < offset < 86_400
}

impl View for ArchiveFileEntity {
    type V = EntityView;

    closed spec fn view(&self) -> EntityView {
        EntityView {
            name: self.name@,
            size: self.size,
            compressed_size: self.compressed_size,
            last_modified: match self.last_modified {
                Some(at) => Some(at.seconds),
                None => None,
            },
            compression: match self.compression {
                Some(c) => Some(c@),
                None => None,
            },
            fstype: self.fstype,
        }
    }
}

/// The views of a sequence of entities, in order.
pub open spec fn entity_views(entities: Seq<ArchiveFileEntity>) -> Seq<EntityView> {
    entities.map_values(|e: ArchiveFileEntity| e@)
}

impl ArchiveFileEntity {
    #[verifier::type_invariant]
    spec fn well_formed(&self) -> bool {
        self.last_modified matches Some(at) ==> is_offset(at.offset)
    }

    /// Makes an entry. The clock of the time of its last change has to be
    /// less than a day from UTC; that of UTC is taken where it is not.
    pub fn new(
        name: String,
        size: Option<u64>,
        compressed_size: Option<u64>,
        last_modified: Option<Timestamp>,
        compression: Option<String>,
        fstype: ArchiveFileEntityType,
    ) -> (r: Self)
        ensures
            r@ == (EntityView {
                name: name@,
                size,
                compressed_size,
                last_modified: match last_modified {
                    Some(at) => Some(at.seconds),
                    None => None,
                },
                compression: match compression {
                    Some(c) => Some(c@),
                    None => None,
                },
                fstype,
            }),
    {
        let last_modified = match last_modified {
            Some(at) => if -86_400 < at.offset && at.offset < 86_400 {
                Some(at)
            } else {
                Some(Timestamp { seconds: at.seconds, offset: 0 })
            },
            None => None,
        };
        ArchiveFileEntity { name, size, compressed_size, last_modified, compression, fstype }
    }

    /// The path of the entry inside the container, with forward slashes.
    pub fn name(&self) -> (r: &str)
        ensures
            r@ == self@.name,
    {
        self.name.as_str()
    }

    /// The size of the content, for an entry that has content.
    pub fn size(&self) -> (r: Option<u64>)
        ensures
            r == self@.size,
    {
        self.size
    }

    /// The size that the content takes inside the container.
    pub fn compressed_size(&self) -> (r: Option<u64>)
        ensures
            r == self@.compressed_size,
    {
        self.compressed_size
    }

    /// When the entry was last modified: the moment, and the clock that
    /// shows it, which is less than a day from UTC.
    pub fn last_modified(&self) -> (r: Option<Timestamp>)
        ensures
            match self@.last_modified {
                Some(s) => r matches Some(at) && at.seconds == s && is_offset(at.offset),
                None => r is None,
            },
    {
        proof {
            use_type_invariant(self);
        }
        self.last_modified
    }

    /// The label of the compression of the entry.
    pub fn compression(&self) -> (r: Option<&str>)
        ensures
            match self@.compression {
                Some(c) => r matches Some(s) && s@ == c,
                None => r is None,
            },
    {
        match &self.compression {
            Some(c) => Some(c.as_str()),
            None => None,
        }
    }

    pub fn fstype(&self) -> (r: ArchiveFileEntityType)
        ensures
            r == self@.fstype,
    {
        self.fstype
    }
}

impl Clone for ArchiveFileEntity {
    fn clone(&self) -> (r: Self)
        ensures
            r@ == self@,
    {
        proof {
            use_type_invariant(self);
        }
        ArchiveFileEntity {
            name: self.name.clone(),
            size: self.size,
            compressed_size: self.compressed_size,
            last_modified: self.last_modified,
            compression: match &self.compression {
                Some(c) => Some(c.clone()),
                None => None,
            },
            fstype: self.fstype,
        }
    }
}

/// The sum of the sizes of the entries that are files, among the first `upto`.
pub open spec fn file_size_sum(entities: Seq<EntityView>, upto: int) -> int
    decreases upto,
{
    if upto <= 0 {
        0
    } else {
        file_size_sum(entities, upto - 1) + (if entities[upto - 1].fstype
            == ArchiveFileEntityType::File {
            match entities[upto - 1].size {
                Some(n) => n as int,
                None => 0,
            }
        } else {
            0
        })
    }
}

/// The sum of the compressed sizes of all entries, among the first `upto`.
pub open spec fn compressed_size_sum(entities: Seq<EntityView>, upto: int) -> int
    decreases upto,
{
    if upto <= 0 {
        0
    } else {
        compressed_size_sum(entities, upto - 1) + (match entities[upto - 1].compressed_size {
            Some(n) => n as int,
            None => 0,
        })
    }
}

/// `n` as a `u64`, or the largest `u64` where `n` is beyond it.
pub open spec fn saturated(n: int) -> u64 {
    if n > u64::MAX {
        u64::MAX
    } else if n < 0 {
        0
    } else {
        n as u64
    }
}

/// The total size of the files among the entries; the largest `u64` stands
/// for a total beyond it.
pub fn total_file_size(entities: &Vec<ArchiveFileEntity>) -> (r: u64)
    ensures
        r == saturated(file_size_sum(entity_views(entities@), entities@.len() as int)),
{
    let ghost views = entity_views(entities@);
    let mut total: u64 = 0;
    let mut i: usize = 0;
    while i < entities.len()
        invariant
            i <= entities@.len(),
            views == entity_views(entities@),
            file_size_sum(views, i as int) >= 0,
            total == saturated(file_size_sum(views, i as int)),
        decreases entities@.len() - i,
    {
        let e = &entities[i];
        assert(views[i as int] == e@);
        if e.fstype() == ArchiveFileEntityType::File {
            match e.size() {
                Some(n) => {
                    total = total.saturating_add(n);
                },
                None => {},
            }
        }
        i += 1;
    }
    total
}

/// The total of the compressed sizes of the entries, saturating likewise.
pub fn total_compressed_size(entities: &Vec<ArchiveFileEntity>) -> (r: u64)
    ensures
        r == saturated(compressed_size_sum(entity_views(entities@), entities@.len() as int)),
{
    let ghost views = entity_views(entities@);
    let mut total: u64 = 0;
    let mut i: usize = 0;
    while i < entities.len()
        invariant
            i <= entities@.len(),
            views == entity_views(entities@),
            compressed_size_sum(views, i as int) >= 0,
            total == saturated(compressed_size_sum(views, i as int)),
        decreases entities@.len() - i,
    {
        let e = &entities[i];
        assert(views[i as int] == e@);
        match e.compressed_size() {
            Some(n) => {
                total = total.saturating_add(n);
            },
            None => {},
        }
        i += 1;
    }
    total
}

/// Format-specific facts about a container, beside its entries.
#[derive(Debug)]
pub enum AdditionalMetadata {
    /// The comment of a zip archive, where it is valid UTF-8.
    Zip { comment: Option<String> },
    /// The descriptors of an ISO 9660 volume.
    Iso {
        is_rock_ridge: bool,
        block_size: u64,
        primary_volume_descriptor: String,
        publisher_identifier: String,
        data_preparer_identifier: String,
        application_identifier: String,
        copyright_file_identifier: Option<String>,
        abstract_file_identifier: Option<String>,
        bibliographic_file_identifier: Option<String>,
    },
}

/// What is known of a container as a whole.
#[derive(Debug)]
pub struct ArchiveMetadata {
    pub total_size: u64,
    pub compressed_size: u64,
    pub compression: Option<ArchiveCompression>,
    pub entries: Vec<ArchiveFileEntity>,
    pub additional: Option<AdditionalMetadata>,
}

/// What creating an archive came to.
#[derive(Debug)]
pub struct CreateResult {
    /// Where the archive is to be stored.
    pub path: String,
    /// The total size of the files that went in.
    pub total_size: u64,
    /// The size of the archive itself.
    pub compressed_size: u64,
}

} // verus!
