//! The one set of capabilities that every container format offers.
use vstd::prelude::*;
use crate::archive::archive_base::{ArchiveError, Fault};
use crate::archive::create::{creation_reports, creation_result};
use crate::archive::datasource::{DataSource, DataSourceView};
use crate::archive::entity::{
    entity_views, file_size_sum, saturated, ArchiveFileEntity, ArchiveMetadata, CreateResult,
};
use crate::archive::events::{event_views, ArchiveEvent, EventView};
use crate::archive::extract::{
    entities_of, extracted_views, extraction, policy_of, stays_below, ExtractedEntry,
    RecordView,
};
use crate::archive::listing::first_named;
use crate::archive::options::{CreateOptions, ExtractOptions, ListOptions, OpenOptions};

verus! {

/// The characters of a string that may be absent.
pub open spec fn optional_text(password: Option<String>) -> Option<Seq<char>> {
    match password {
        Some(p) => Some(p@),
        None => None,
    }
}

/// The source that views a buffer in memory from its first byte.
pub open spec fn stream_view(bytes: Seq<u8>) -> DataSourceView {
    DataSourceView { bytes, position: 0, path: None }
}

/// What can be done with an archive, whatever its container format.
///
/// What an archive holds is given by three functions of its bytes and a
/// password: the records of its entries, where the container can be read at
/// all; the reports about entries whose headers cannot be read; and the
/// content of each entry, by its number. Every operation is stated over
/// them, so that listing, metadata, unpacking and opening agree on what the
/// archive holds.
pub trait Archived<'a>: Sized {
    /// The name of the source of the archive in messages.
    spec fn label(&self) -> Seq<char>;

    /// The bytes of the archive.
    spec fn bytes(&self) -> Seq<u8>;

    /// The records of the entries, in the order of the container, where the
    /// container can be read with this password.
    spec fn records(&self, password: Option<Seq<char>>) -> Option<Seq<RecordView>>;

    /// The reports about the entries whose headers cannot be read.
    spec fn reports(&self, password: Option<Seq<char>>) -> Seq<EventView>;

    /// The content of each entry, by its number, or the kind of the error
    /// that reading it ends in.
    spec fn contents(&self, password: Option<Seq<char>>) -> spec_fn(usize) -> Result<Seq<u8>, Fault>;

    /// Whether an archive of this kind is made over a source. The archive
    /// of one container format is made over any source, since it reads
    /// nothing yet; the archive of whichever format the source holds is made
    /// where the source is recognised.
    spec fn accepts(source: DataSourceView) -> bool;

    /// The archive over a source: it is made exactly where the source is
    /// accepted, and it has the bytes and the name of the source.
    fn of(source: DataSource<'a>) -> (r: Result<Self, ArchiveError>)
        ensures
            r is Ok <==> Self::accepts(source@),
            r matches Ok(archive) ==> archive.bytes() == source@.bytes && archive.label()
                == source@.label(),
    ;

    /// The archive over a buffer in memory: what [`Archived::of`] makes over
    /// the source that views the buffer from its first byte. It is made
    /// exactly where that source is accepted, has the bytes of the buffer,
    /// and is called `stream`.
    fn from_bytes(bytes: &'a Vec<u8>) -> (r: Result<Self, ArchiveError>)
        ensures
            r is Ok <==> Self::accepts(stream_view(bytes@)),
            r matches Ok(archive) ==> archive.bytes() == bytes@ && archive.label() == "stream"@,
    {
        Self::of(DataSource::stream(bytes))
    }

    /// Unpacks the archive into memory: what is to be written, in the order
    /// in which to write it. `existing` names the entries whose destination
    /// exists already. Nothing is placed outside the destination: an entry
    /// whose name would leave it is reported and left out. Every report is
    /// appended to `events`; a container that cannot be read is an error,
    /// and then nothing is reported.
    fn extract(
        &self,
        options: &ExtractOptions,
        existing: &Vec<String>,
        events: &mut Vec<ArchiveEvent>,
    ) -> (r: Result<Vec<ExtractedEntry>, ArchiveError>)
        ensures
            r is Ok <==> self.records(optional_text(options.password)) is Some,
            r is Err ==> final(events)@ == old(events)@,
            r matches Ok(out) ==> {
                let unpacked = extraction(
                    self.records(optional_text(options.password)).unwrap(),
                    self.contents(optional_text(options.password)),
                    policy_of(*options, existing@),
                    self.label(),
                );
                &&& extracted_views(out@) == unpacked.0
                &&& stays_below(unpacked.0, options.destination@)
                &&& event_views(final(events)@) == event_views(old(events)@) + self.reports(
                    optional_text(options.password),
                ) + unpacked.1
            },
    ;

    /// Lists the entries in the order of the container. An entry whose
    /// header cannot be read is reported in `events` and left out; a
    /// container that cannot be read is an error.
    fn list(&self, options: &ListOptions, events: &mut Vec<ArchiveEvent>) -> (r: Result<
        Vec<ArchiveFileEntity>,
        ArchiveError,
    >)
        ensures
            r is Ok <==> self.records(optional_text(options.password)) is Some,
            r is Err ==> final(events)@ == old(events)@,
            r matches Ok(entities) ==> {
                &&& entity_views(entities@) == entities_of(
                    self.records(optional_text(options.password)).unwrap(),
                )
                &&& event_views(final(events)@) == event_views(old(events)@) + self.reports(
                    optional_text(options.password),
                )
            },
    ;

    /// Whether hidden files go into an archive that is created from these
    /// options.
    spec fn keeps_hidden(options: CreateOptions) -> bool;

    /// Creates an archive in memory from the inputs of the options: what it
    /// came to, and the bytes of the archive. Each input is reported in
    /// `events`, as created or as skipped.
    fn create(options: &CreateOptions, events: &mut Vec<ArchiveEvent>) -> (r: Result<
        (CreateResult, Vec<u8>),
        ArchiveError,
    >)
        ensures
            r matches Ok(made) ==> {
                &&& creation_result(*options, Self::keeps_hidden(*options), made.1@.len(), made.0)
                &&& event_views(final(events)@) == event_views(old(events)@) + creation_reports(
                    options.files@,
                    options.source@,
                    Self::keeps_hidden(*options),
                    options.files@.len() as int,
                )
            },
    ;

    /// What is known of the archive as a whole, read without a password. Its
    /// entries are those that listing gives, and its total size is the sum
    /// of the sizes of the files among them, or the largest `u64` where the
    /// sum is beyond that.
    fn metadata(&self, events: &mut Vec<ArchiveEvent>) -> (r: Result<ArchiveMetadata, ArchiveError>)
        ensures
            r is Ok <==> self.records(None) is Some,
            r is Err ==> final(events)@ == old(events)@,
            r matches Ok(m) ==> {
                &&& entity_views(m.entries@) == entities_of(self.records(None).unwrap())
                &&& m.total_size == saturated(
                    file_size_sum(entity_views(m.entries@), m.entries@.len() as int),
                )
                &&& event_views(final(events)@) == event_views(old(events)@) + self.reports(None)
            },
    ;

    /// Reads the content of the first entry with the exact name
    /// `options.path`. Where no entry bears the name, the outcome is
    /// `EntryNotFound`, and nothing is read.
    fn open(&self, options: &OpenOptions) -> (r: Result<Vec<u8>, ArchiveError>)
        ensures
            match self.records(optional_text(options.password)) {
                None => r is Err,
                Some(records) => match first_named(records, options.path@) {
                    None => r matches Err(ArchiveError::EntryNotFound(p)) && p@ == options.path@,
                    Some(record) => match self.contents(optional_text(options.password))(
                        record.index,
                    ) {
                        Ok(content) => r matches Ok(out) && out@ == content,
                        Err(kind) => r matches Err(e) && e.fault() == kind,
                    },
                },
            },
    ;
}

/// Listing and metadata agree: what metadata gives as the entries of an
/// archive, read without a password, is what listing gives, entry for entry,
/// and its total size is the sum of the sizes of the files among them, or the
/// largest `u64` where the sum is beyond that.
pub proof fn lemma_metadata_agrees_with_listing<'a, A: Archived<'a>>(
    archive: A,
    listed: Vec<ArchiveFileEntity>,
    metadata: ArchiveMetadata,
)
    requires
        archive.records(None) is Some,
        entity_views(listed@) == entities_of(archive.records(None).unwrap()),
        entity_views(metadata.entries@) == entities_of(archive.records(None).unwrap()),
        metadata.total_size == saturated(
            file_size_sum(entity_views(metadata.entries@), metadata.entries@.len() as int),
        ),
    ensures
        entity_views(metadata.entries@) == entity_views(listed@),
        metadata.entries@.len() == listed@.len(),
        metadata.total_size == saturated(file_size_sum(entity_views(listed@), listed@.len() as int)),
{
    assert(entity_views(metadata.entries@).len() == metadata.entries@.len());
    assert(entity_views(listed@).len() == listed@.len());
}

/// A name that none of the entries bears is not found, whatever the
/// container: opening it reads nothing.
pub proof fn lemma_absent_entry_is_not_found<'a, A: Archived<'a>>(
    archive: A,
    password: Option<Seq<char>>,
    path: Seq<char>,
)
    requires
        archive.records(password) is Some,
        forall|i: int|
            0 <= i < archive.records(password).unwrap().len() ==> (
            #[trigger] archive.records(password).unwrap()[i]).entity.name != path,
    ensures
        first_named(archive.records(password).unwrap(), path) is None,
{
    crate::archive::listing::lemma_absent_name_is_not_found(
        archive.records(password).unwrap(),
        path,
    );
}

} // verus!
