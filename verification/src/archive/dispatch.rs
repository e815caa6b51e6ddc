//! The archive of any container format, chosen by what its source holds.
use vstd::prelude::*;
use crate::archive::archive_base::{ArchiveError, ArchiveType, Fault};
use crate::archive::archived::Archived;
use crate::archive::datasource::{DataSource, DataSourceView};
use crate::archive::detect::{
    at_probe_offsets, detection, guessed_from_filename, probed_windows,
};
use crate::archive::entity::{ArchiveFileEntity, ArchiveMetadata, CreateResult};
use crate::archive::events::{ArchiveEvent, EventView};
use crate::archive::extract::{ExtractedEntry, RecordView};
use crate::archive::iso_archive::{ISOArchive, IsoVolume};
use crate::archive::options::{CreateOptions, ExtractOptions, ListOptions, OpenOptions};
use crate::archive::sevenz_archive::{sevenz_creation, SevenZArchive, SevenZVolume};
use crate::archive::tar_archive::{tar_creation, TarArchive};
use crate::archive::zip_archive::{zip_creation, ZipArchive};

verus! {

/// An archive of one of the container formats. It does what the archive of
/// its format does, and nothing beside.
pub enum Archive<'a> {
    Zip(ZipArchive<'a>),
    Tar(TarArchive<'a>),
    SevenZ(SevenZArchive<'a>),
    Iso(ISOArchive<'a>),
}

impl<'a> Archive<'a> {
    /// The container format of the archive.
    pub open spec fn kind(&self) -> ArchiveType {
        match self {
            Archive::Zip(_) => ArchiveType::Zip,
            Archive::Tar(_) => ArchiveType::Tar,
            Archive::SevenZ(_) => ArchiveType::SevenZ,
            Archive::Iso(_) => ArchiveType::Iso,
        }
    }

    /// Recognises the container format of a source and makes the archive of
    /// that format over it. A source that is not recognised is refused with
    /// every window that was probed, each at its offset.
    pub fn of(data: DataSource<'a>) -> (r: Result<Self, ArchiveError>)
        ensures
            match detection(data@.bytes) {
                Ok(found) => r matches Ok(archive) && archive.kind() == found.0 && archive.bytes()
                    == data@.bytes && archive.label() == data@.label(),
                Err(probed) => r matches Err(ArchiveError::UnknownArchiveType(m))
                    && at_probe_offsets(m) && probed_windows(m) == probed,
            },
    {
        let kind = match ArchiveType::try_from_datasource(&data) {
            Ok(found) => found.0,
            Err(e) => {
                return Err(e);
            },
        };
        match kind {
            ArchiveType::Zip => match ZipArchive::of(data) {
                Ok(a) => Ok(Archive::Zip(a)),
                Err(e) => Err(e),
            },
            ArchiveType::Tar => match TarArchive::of(data) {
                Ok(a) => Ok(Archive::Tar(a)),
                Err(e) => Err(e),
            },
            ArchiveType::SevenZ => match SevenZArchive::of(data) {
                Ok(a) => Ok(Archive::SevenZ(a)),
                Err(e) => Err(e),
            },
            ArchiveType::Iso => match ISOArchive::of(data) {
                Ok(a) => Ok(Archive::Iso(a)),
                Err(e) => Err(e),
            },
        }
    }

    /// Attaches what the caller has read of a 7z archive: its headers and
    /// the contents of its solid blocks. Archives of other formats stay as
    /// they are.
    pub fn attach_blocks(&mut self, volume: SevenZVolume)
        ensures
            final(self).kind() == old(self).kind(),
            final(self).bytes() == old(self).bytes(),
            final(self).label() == old(self).label(),
            match *old(self) {
                Archive::SevenZ(before) => *final(self) matches Archive::SevenZ(after)
                    && after.volume() == Some(volume),
                _ => *final(self) == *old(self),
            },
    {
        match self {
            Archive::SevenZ(a) => {
                a.attach(volume);
            },
            _ => {},
        }
    }

    /// Attaches the directory tree of an ISO 9660 volume, which the caller
    /// has read from the source. Archives of other formats stay as they
    /// are.
    pub fn attach_volume(&mut self, volume: IsoVolume)
        ensures
            final(self).kind() == old(self).kind(),
            final(self).bytes() == old(self).bytes(),
            final(self).label() == old(self).label(),
            match *old(self) {
                Archive::Iso(before) => *final(self) matches Archive::Iso(after) && after.volume()
                    == Some(volume),
                _ => *final(self) == *old(self),
            },
    {
        match self {
            Archive::Iso(a) => {
                a.attach(volume);
            },
            _ => {},
        }
    }
}

impl<'a> Archived<'a> for Archive<'a> {
    open spec fn accepts(source: DataSourceView) -> bool {
        detection(source.bytes) is Ok
    }

    open spec fn label(&self) -> Seq<char> {
        match self {
            Archive::Zip(a) => a.label(),
            Archive::Tar(a) => a.label(),
            Archive::SevenZ(a) => a.label(),
            Archive::Iso(a) => a.label(),
        }
    }

    open spec fn bytes(&self) -> Seq<u8> {
        match self {
            Archive::Zip(a) => a.bytes(),
            Archive::Tar(a) => a.bytes(),
            Archive::SevenZ(a) => a.bytes(),
            Archive::Iso(a) => a.bytes(),
        }
    }

    open spec fn records(&self, password: Option<Seq<char>>) -> Option<Seq<RecordView>> {
        match self {
            Archive::Zip(a) => a.records(password),
            Archive::Tar(a) => a.records(password),
            Archive::SevenZ(a) => a.records(password),
            Archive::Iso(a) => a.records(password),
        }
    }

    open spec fn reports(&self, password: Option<Seq<char>>) -> Seq<EventView> {
        match self {
            Archive::Zip(a) => a.reports(password),
            Archive::Tar(a) => a.reports(password),
            Archive::SevenZ(a) => a.reports(password),
            Archive::Iso(a) => a.reports(password),
        }
    }

    open spec fn contents(&self, password: Option<Seq<char>>) -> spec_fn(usize) -> Result<Seq<u8>, Fault> {
        match self {
            Archive::Zip(a) => a.contents(password),
            Archive::Tar(a) => a.contents(password),
            Archive::SevenZ(a) => a.contents(password),
            Archive::Iso(a) => a.contents(password),
        }
    }

    open spec fn keeps_hidden(options: CreateOptions) -> bool {
        options.include_hidden || !(guessed_from_filename(options.destination@) matches Some(found)
            && found.0 == ArchiveType::Zip)
    }

    /// Recognises the container format of a source and makes the archive of
    /// that format over it; a source that is not recognised is refused with
    /// every window that was probed.
    fn of(source: DataSource<'a>) -> (r: Result<Self, ArchiveError>)
        ensures
            match detection(source@.bytes) {
                Ok(found) => r matches Ok(archive) && archive.kind() == found.0,
                Err(probed) => r matches Err(ArchiveError::UnknownArchiveType(m))
                    && at_probe_offsets(m) && probed_windows(m) == probed,
            },
    {
        Archive::of(source)
    }

    fn extract(
        &self,
        options: &ExtractOptions,
        existing: &Vec<String>,
        events: &mut Vec<ArchiveEvent>,
    ) -> (r: Result<Vec<ExtractedEntry>, ArchiveError>) {
        match self {
            Archive::Zip(a) => a.extract(options, existing, events),
            Archive::Tar(a) => a.extract(options, existing, events),
            Archive::SevenZ(a) => a.extract(options, existing, events),
            Archive::Iso(a) => a.extract(options, existing, events),
        }
    }

    fn list(&self, options: &ListOptions, events: &mut Vec<ArchiveEvent>) -> (r: Result<
        Vec<ArchiveFileEntity>,
        ArchiveError,
    >) {
        match self {
            Archive::Zip(a) => a.list(options, events),
            Archive::Tar(a) => a.list(options, events),
            Archive::SevenZ(a) => a.list(options, events),
            Archive::Iso(a) => a.list(options, events),
        }
    }

    /// Creates an archive of the container format that the name of the
    /// destination stands for, as the archive of that format does. A name
    /// with no known extension is refused, and an ISO 9660 volume cannot be
    /// created.
    fn create(options: &CreateOptions, events: &mut Vec<ArchiveEvent>) -> (r: Result<
        (CreateResult, Vec<u8>),
        ArchiveError,
    >)
        ensures
            guessed_from_filename(options.destination@) is None ==> (r matches Err(
                ArchiveError::UnknownFileExtension(name),
            ) && name@ == options.destination@),
            guessed_from_filename(options.destination@) matches Some(found) ==> match found.0 {
                ArchiveType::Zip => (r is Ok <==> zip_creation(*options) is Some) && (
                r matches Ok(made) ==> zip_creation(*options) == Some(made.1@)),
                ArchiveType::Tar => (r is Ok <==> tar_creation(*options) is Some) && (
                r matches Ok(made) ==> tar_creation(*options) == Some(made.1@)),
                ArchiveType::SevenZ => (r is Ok <==> sevenz_creation(*options) is Some) && (
                r matches Ok(made) ==> sevenz_creation(*options) == Some(made.1@)),
                ArchiveType::Iso => r matches Err(
                    ArchiveError::UnsupportedActionForArchiveType(_, ArchiveType::Iso),
                ),
            },
    {
        let kind = match ArchiveType::guess_from_filename(options.destination.as_str()) {
            Ok(found) => found.0,
            Err(e) => {
                return Err(e);
            },
        };
        match kind {
            ArchiveType::Zip => ZipArchive::create(options, events),
            ArchiveType::Tar => TarArchive::create(options, events),
            ArchiveType::SevenZ => SevenZArchive::create(options, events),
            ArchiveType::Iso => ISOArchive::create(options, events),
        }
    }

    fn metadata(&self, events: &mut Vec<ArchiveEvent>) -> (r: Result<ArchiveMetadata, ArchiveError>) {
        match self {
            Archive::Zip(a) => a.metadata(events),
            Archive::Tar(a) => a.metadata(events),
            Archive::SevenZ(a) => a.metadata(events),
            Archive::Iso(a) => a.metadata(events),
        }
    }

    fn open(&self, options: &OpenOptions) -> (r: Result<Vec<u8>, ArchiveError>) {
        match self {
            Archive::Zip(a) => a.open(options),
            Archive::Tar(a) => a.open(options),
            Archive::SevenZ(a) => a.open(options),
            Archive::Iso(a) => a.open(options),
        }
    }
}

} // verus!
