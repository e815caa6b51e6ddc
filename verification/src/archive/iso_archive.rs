//! ISO 9660 volumes. The directory tree of a volume is handed in by the
//! caller, who reads it; this module descends it.
use vstd::prelude::*;
use crate::archive::archived::{optional_text, Archived};
use crate::archive::archive_base::{ArchiveError, ArchiveFileEntityType, ArchiveType, Fault};
use crate::archive::datasource::{DataSource, DataSourceView};
use crate::archive::entity::{
    compressed_size_sum, entity_views, modified, modified_at, saturated, total_compressed_size,
    total_file_size, AdditionalMetadata, ArchiveFileEntity, ArchiveMetadata, CreateResult,
    EntityView,
};
use crate::archive::events::{emit, event_views, ArchiveEvent, EventView};
use crate::archive::extract::{
    contents_of, extract_with, read_or, record_views, EntryReader, EntryRecord, ExtractedEntry,
    RecordView,
};
use crate::archive::listing::{entities_from, open_with, unreadable_name};
use crate::archive::options::{CreateOptions, ExtractOptions, ListOptions, OpenOptions};
use crate::archive::paths::{join, joined};
use crate::archive::text::str_equal;

verus! {

/// A file of a volume, with its content.
#[derive(Debug)]
pub struct IsoFile {
    pub identifier: String,
    /// When the file was last modified, in seconds since the Unix epoch.
    pub modified: i64,
    pub content: Vec<u8>,
}

/// A symbolic link of a volume.
#[derive(Debug)]
pub struct IsoSymlink {
    pub identifier: String,
    pub modified: i64,
    /// Where the link points, where the volume says so.
    pub target: Option<String>,
}

/// A directory of a volume, with what it holds, in the order of the volume.
#[derive(Debug)]
pub struct IsoDirectory {
    pub identifier: String,
    pub modified: i64,
    pub entries: Vec<IsoEntry>,
}

/// One entry of a directory of a volume.
#[derive(Debug)]
pub enum IsoEntry {
    File(IsoFile),
    Directory(IsoDirectory),
    Symlink(IsoSymlink),
    /// An entry that could not be read; the text says why.
    Unreadable(String),
}

/// An ISO 9660 volume: its descriptors and its root directory.
#[derive(Debug)]
pub struct IsoVolume {
    pub is_rock_ridge: bool,
    pub block_size: u64,
    pub volume_set_identifier: String,
    pub publisher_identifier: String,
    pub data_preparer_identifier: String,
    pub application_identifier: String,
    pub copyright_file_identifier: Option<String>,
    pub abstract_file_identifier: Option<String>,
    pub bibliographic_file_identifier: Option<String>,
    pub root: IsoDirectory,
}

/// Something that descending a volume finds: an entry to list, with its
/// content, or an entry that could not be read, under the name that it is
/// reported by.
pub enum IsoFound {
    Listed { entity: EntityView, link_target: Option<Seq<char>>, content: Seq<u8> },
    Failed { name: Seq<char>, reason: Seq<char> },
}

/// Whether a directory stands for its holder or for itself: such entries
/// are not descended into.
pub open spec fn is_dot_entry(identifier: Seq<char>) -> bool {
    identifier == "."@ || identifier == ".."@
}

/// The entity of a file of a volume, found in the directory `cwd`.
pub open spec fn iso_file_entity(f: IsoFile, cwd: Seq<char>) -> EntityView {
    EntityView {
        name: joined(cwd, f.identifier@),
        size: Some(saturated(f.content@.len() as int)),
        compressed_size: Some(saturated(f.content@.len() as int)),
        last_modified: modified_at(Some(f.modified as int)),
        compression: None,
        fstype: ArchiveFileEntityType::File,
    }
}

/// The entity of a directory of a volume, found in the directory `cwd`.
pub open spec fn iso_directory_entity(d: IsoDirectory, cwd: Seq<char>) -> EntityView {
    EntityView {
        name: joined(cwd, d.identifier@),
        size: None,
        compressed_size: None,
        last_modified: modified_at(Some(d.modified as int)),
        compression: None,
        fstype: ArchiveFileEntityType::Directory,
    }
}

/// The entity of a symbolic link of a volume, found in the directory `cwd`.
pub open spec fn iso_symlink_entity(s: IsoSymlink, cwd: Seq<char>) -> EntityView {
    EntityView {
        name: joined(cwd, s.identifier@),
        size: None,
        compressed_size: None,
        last_modified: modified_at(Some(s.modified as int)),
        compression: None,
        fstype: ArchiveFileEntityType::SymbolicLink,
    }
}

/// What descending finds at one entry of the directory `cwd`: the entry,
/// and for a directory all that lies below it, depth first.
pub open spec fn found_at(e: IsoEntry, cwd: Seq<char>) -> Seq<IsoFound>
    decreases e, 0nat,
{
    match e {
        IsoEntry::File(f) => seq![
            IsoFound::Listed {
                entity: iso_file_entity(f, cwd),
                link_target: None,
                content: f.content@,
            },
        ],
        IsoEntry::Symlink(s) => seq![
            IsoFound::Listed {
                entity: iso_symlink_entity(s, cwd),
                link_target: match s.target {
                    Some(t) => Some(t@),
                    None => None,
                },
                content: Seq::empty(),
            },
        ],
        IsoEntry::Unreadable(reason) => seq![
            IsoFound::Failed { name: joined(cwd, unreadable_name()), reason: reason@ },
        ],
        IsoEntry::Directory(d) => if is_dot_entry(d.identifier@) {
            Seq::empty()
        } else {
            seq![
                IsoFound::Listed {
                    entity: iso_directory_entity(d, cwd),
                    link_target: None,
                    content: Seq::empty(),
                },
            ] + found_in(d.entries@, joined(cwd, d.identifier@), d.entries@.len() as int)
        },
    }
}

/// What descending finds at the first `upto` entries of a directory whose
/// path is `cwd`.
pub open spec fn found_in(entries: Seq<IsoEntry>, cwd: Seq<char>, upto: int) -> Seq<IsoFound>
    decreases entries, upto,
{
    if upto <= 0 || upto > entries.len() {
        Seq::empty()
    } else {
        found_in(entries, cwd, upto - 1) + found_at(entries[upto - 1], cwd)
    }
}

/// Something that descending a volume found: the executable twin of
/// [`IsoFound`].
#[derive(Debug)]
pub enum IsoItem {
    Listed { entity: ArchiveFileEntity, link_target: Option<String>, content: Vec<u8> },
    Failed { name: String, reason: String },
}

impl View for IsoItem {
    type V = IsoFound;

    open spec fn view(&self) -> IsoFound {
        match self {
            IsoItem::Listed { entity, link_target, content } => IsoFound::Listed {
                entity: entity@,
                link_target: match link_target {
                    Some(t) => Some(t@),
                    None => None,
                },
                content: content@,
            },
            IsoItem::Failed { name, reason } => IsoFound::Failed { name: name@, reason: reason@ },
        }
    }
}

/// The views of a sequence of items, in order.
pub open spec fn item_views(items: Seq<IsoItem>) -> Seq<IsoFound> {
    items.map_values(|i: IsoItem| i@)
}

/// All that descending a volume finds, from its root.
pub open spec fn iso_found(volume: IsoVolume) -> Seq<IsoFound> {
    found_in(volume.root.entries@, volume.root.identifier@, volume.root.entries@.len() as int)
}

/// The records of what was found, among the first `upto`: one for each entry
/// that is listed, numbered by its place among all that was found.
pub open spec fn iso_records(found: Seq<IsoFound>, upto: int) -> Seq<RecordView>
    decreases upto,
{
    if upto <= 0 {
        Seq::empty()
    } else {
        let before = iso_records(found, upto - 1);
        match found[upto - 1] {
            IsoFound::Listed { entity, link_target, content } => before.push(
                RecordView { index: (upto - 1) as usize, entity, link_target, mode: None },
            ),
            IsoFound::Failed { name, reason } => before,
        }
    }
}

/// The reports about what was found, among the first `upto`, and could not
/// be read.
pub open spec fn iso_reports(found: Seq<IsoFound>, upto: int) -> Seq<EventView>
    decreases upto,
{
    if upto <= 0 {
        Seq::empty()
    } else {
        let before = iso_reports(found, upto - 1);
        match found[upto - 1] {
            IsoFound::Listed { entity, link_target, content } => before,
            IsoFound::Failed { name, reason } => before.push(
                EventView::FailedToReadEntry(name, Fault::Iso),
            ),
        }
    }
}

/// What reading ends in for what was found, by its place: the content of
/// what is listed, an error of the volume for what could not be read, and
/// nothing found beyond the last place.
pub open spec fn iso_contents(found: Seq<IsoFound>) -> spec_fn(usize) -> Result<Seq<u8>, Fault> {
    |i: usize|
        if i < found.len() {
            match found[i as int] {
                IsoFound::Listed { entity, link_target, content } => Ok(content),
                IsoFound::Failed { name, reason } => Err(Fault::Iso),
            }
        } else {
            Err(Fault::EntryNotFound)
        }
}

/// Whether a directory stands for its holder or for itself.
pub fn dot_entry(identifier: &str) -> (r: bool)
    ensures
        r == is_dot_entry(identifier@),
{
    str_equal(identifier, ".") || str_equal(identifier, "..")
}

/// The size of a content as a `u64`.
fn content_size(content: &Vec<u8>) -> (r: u64)
    ensures
        r == saturated(content@.len() as int),
{
    content.len() as u64
}

/// An ISO 9660 volume over a source, with the directory tree that was read
/// from it, once that is attached.
pub struct ISOArchive<'a> {
    pub(crate) source: DataSource<'a>,
    pub(crate) volume: Option<IsoVolume>,
}

/// All that descending a volume found, which yields the content of the
/// files among it.
pub struct IsoEntries {
    items: Vec<IsoItem>,
}

impl IsoEntries {
    /// What was found.
    pub closed spec fn found(&self) -> Seq<IsoFound> {
        item_views(self.items@)
    }
}

impl EntryReader for IsoEntries {
    closed spec fn content(&self, index: usize) -> Result<Seq<u8>, Fault> {
        iso_contents(self.found())(index)
    }

    fn read(&mut self, index: usize) -> (r: Result<Vec<u8>, ArchiveError>)
        ensures
            final(self).found() == old(self).found(),
    {
        if index >= self.items.len() {
            return Err(ArchiveError::EntryNotFound(String::new()));
        }
        assert(self.found()[index as int] == self.items@[index as int]@);
        match &self.items[index] {
            IsoItem::Listed { entity, link_target, content } => Ok(content.clone()),
            IsoItem::Failed { name, reason } => Err(ArchiveError::Iso(reason.clone())),
        }
    }
}

impl<'a> ISOArchive<'a> {
    /// Descends one entry of the directory `cwd`, and for a directory all
    /// that lies below it; what is found is appended to `items`.
    pub fn list_entry(entry: &IsoEntry, cwd: &str, items: &mut Vec<IsoItem>)
        ensures
            item_views(final(items)@) == item_views(old(items)@) + found_at(*entry, cwd@),
        decreases entry, 0nat,
    {
        let ghost before = item_views(items@);
        match entry {
            IsoEntry::File(f) => {
                let size = content_size(&f.content);
                let entity = ArchiveFileEntity::new(
                    join(cwd, f.identifier.as_str()),
                    Some(size),
                    Some(size),
                    modified(Some(f.modified)),
                    None,
                    ArchiveFileEntityType::File,
                );
                let item = IsoItem::Listed { entity, link_target: None, content: f.content.clone() };
                items.push(item);
                assert(item_views(items@) =~= before + found_at(*entry, cwd@));
            },
            IsoEntry::Symlink(s) => {
                let entity = ArchiveFileEntity::new(
                    join(cwd, s.identifier.as_str()),
                    None,
                    None,
                    modified(Some(s.modified)),
                    None,
                    ArchiveFileEntityType::SymbolicLink,
                );
                let link_target = match &s.target {
                    Some(t) => Some(t.clone()),
                    None => None,
                };
                let item = IsoItem::Listed { entity, link_target, content: Vec::new() };
                items.push(item);
                assert(item_views(items@) =~= before + found_at(*entry, cwd@));
            },
            IsoEntry::Unreadable(reason) => {
                proof {
                    reveal_strlit("???");
                }
                let item = IsoItem::Failed { name: join(cwd, "???"), reason: reason.clone() };
                items.push(item);
                assert(item_views(items@) =~= before + found_at(*entry, cwd@));
            },
            IsoEntry::Directory(d) => {
                if !dot_entry(d.identifier.as_str()) {
                    let path = join(cwd, d.identifier.as_str());
                    let entity = ArchiveFileEntity::new(
                        path.clone(),
                        None,
                        None,
                        modified(Some(d.modified)),
                        None,
                        ArchiveFileEntityType::Directory,
                    );
                    let item = IsoItem::Listed {
                        entity,
                        link_target: None,
                        content: Vec::new(),
                    };
                    items.push(item);
                    let ghost with_directory = item_views(items@);
                    assert(with_directory =~= before.push(item@));
                    Self::list_dir(d, path.as_str(), items);
                    assert(item_views(items@) =~= before + found_at(*entry, cwd@));
                } else {
                    assert(item_views(items@) =~= before + found_at(*entry, cwd@));
                }
            },
        }
    }

    /// Descends a directory whose path is `cwd`, depth first and in the
    /// order of the volume; what is found is appended to `items`.
    pub fn list_dir(dir: &IsoDirectory, cwd: &str, items: &mut Vec<IsoItem>)
        ensures
            item_views(final(items)@) == item_views(old(items)@) + found_in(
                dir.entries@,
                cwd@,
                dir.entries@.len() as int,
            ),
        decreases dir, 1nat,
    {
        let ghost before = item_views(items@);
        let mut i: usize = 0;
        while i < dir.entries.len()
            invariant
                i <= dir.entries@.len(),
                item_views(items@) == before + found_in(dir.entries@, cwd@, i as int),
            decreases dir.entries@.len() - i,
        {
            let ghost so_far = item_views(items@);
            Self::list_entry(&dir.entries[i], cwd, items);
            assert(item_views(items@) =~= before + found_in(dir.entries@, cwd@, i + 1));
            i += 1;
        }
    }
}

impl<'a> ISOArchive<'a> {
    /// The source that the volume was read from.
    pub closed spec fn source(&self) -> DataSourceView {
        self.source@
    }

    /// The directory tree of the volume, once it is attached.
    pub closed spec fn volume(&self) -> Option<IsoVolume> {
        self.volume
    }

    /// Attaches the directory tree that was read from the source.
    pub fn attach(&mut self, volume: IsoVolume)
        ensures
            final(self).source() == old(self).source(),
            final(self).volume() == Some(volume),
    {
        self.volume = Some(volume);
    }

    /// Descends the volume and makes the record of every entry that is
    /// listed. An entry that could not be read is reported; a volume whose
    /// tree is not attached is an invalid source.
    fn scan(&self, events: &mut Vec<ArchiveEvent>) -> (r: Result<
        (IsoEntries, Vec<EntryRecord>),
        ArchiveError,
    >)
        ensures
            r is Ok <==> self.volume() is Some,
            r matches Err(e) ==> final(events)@ == old(events)@ && (
            e matches ArchiveError::InvalidDataSource(name) && name@ == self.source().label()),
            r matches Ok(got) ==> {
                let found = iso_found(self.volume().unwrap());
                &&& got.0.found() == found
                &&& record_views(got.1@) == iso_records(found, found.len() as int)
                &&& event_views(final(events)@) == event_views(old(events)@) + iso_reports(
                    found,
                    found.len() as int,
                )
            },
    {
        let volume = match &self.volume {
            Some(v) => v,
            None => {
                return Err(ArchiveError::InvalidDataSource(self.source.to_string()));
            },
        };
        let mut items: Vec<IsoItem> = Vec::new();
        Self::list_dir(&volume.root, volume.root.identifier.as_str(), &mut items);
        let ghost found = item_views(items@);
        assert(found =~= iso_found(*volume));
        let mut records: Vec<EntryRecord> = Vec::new();
        let mut i: usize = 0;
        while i < items.len()
            invariant
                i <= items@.len(),
                found == item_views(items@),
                record_views(records@) == iso_records(found, i as int),
                event_views(events@) == event_views(old(events)@) + iso_reports(found, i as int),
            decreases items@.len() - i,
        {
            let ghost before = record_views(records@);
            assert(found[i as int] == items@[i as int]@);
            match &items[i] {
                IsoItem::Listed { entity, link_target, content } => {
                    let record = EntryRecord {
                        index: i,
                        entity: entity.clone(),
                        link_target: match link_target {
                            Some(t) => Some(t.clone()),
                            None => None,
                        },
                        mode: None,
                    };
                    records.push(record);
                    assert(record_views(records@) =~= before.push(record@));
                },
                IsoItem::Failed { name, reason } => {
                    emit(
                        events,
                        ArchiveEvent::FailedToReadEntry(
                            name.clone(),
                            ArchiveError::Iso(reason.clone()),
                        ),
                    );
                    assert(event_views(events@) =~= event_views(old(events)@) + iso_reports(
                        found,
                        i as int,
                    ).push(EventView::FailedToReadEntry(name@, Fault::Iso)));
                },
            }
            i += 1;
        }
        Ok((IsoEntries { items }, records))
    }
}

impl<'a> Archived<'a> for ISOArchive<'a> {
    open spec fn accepts(source: DataSourceView) -> bool {
        true
    }

    open spec fn label(&self) -> Seq<char> {
        self.source().label()
    }

    open spec fn bytes(&self) -> Seq<u8> {
        self.source().bytes
    }

    open spec fn records(&self, password: Option<Seq<char>>) -> Option<Seq<RecordView>> {
        match self.volume() {
            Some(volume) => Some(iso_records(iso_found(volume), iso_found(volume).len() as int)),
            None => None,
        }
    }

    open spec fn reports(&self, password: Option<Seq<char>>) -> Seq<EventView> {
        iso_reports(iso_found(self.volume().unwrap()), iso_found(self.volume().unwrap()).len() as int)
    }

    open spec fn contents(&self, password: Option<Seq<char>>) -> spec_fn(usize) -> Result<Seq<u8>, Fault> {
        iso_contents(iso_found(self.volume().unwrap()))
    }

    open spec fn keeps_hidden(options: CreateOptions) -> bool {
        true
    }

    /// The ISO 9660 volume over a source. Its directory tree is yet to be
    /// attached.
    fn of(source: DataSource<'a>) -> (r: Result<Self, ArchiveError>)
        ensures
            r matches Ok(a) && a.source() == source@ && a.volume() is None,
    {
        Ok(ISOArchive { source, volume: None })
    }

    /// Lists the entries by descending the directories, depth first. An
    /// entry that could not be read is reported in `events` and left out.
    fn list(&self, options: &ListOptions, events: &mut Vec<ArchiveEvent>) -> (r: Result<
        Vec<ArchiveFileEntity>,
        ArchiveError,
    >)
        ensures
            r matches Err(e) ==> e is InvalidDataSource,
    {
        match self.scan(events) {
            Ok(got) => Ok(entities_from(&got.1)),
            Err(e) => Err(e),
        }
    }

    /// Unpacks the volume: see [`extract_with`] for what is written and
    /// reported. `existing` names the entries whose destination exists.
    fn extract(
        &self,
        options: &ExtractOptions,
        existing: &Vec<String>,
        events: &mut Vec<ArchiveEvent>,
    ) -> (r: Result<Vec<ExtractedEntry>, ArchiveError>)
        ensures
            r matches Err(e) ==> e is InvalidDataSource,
    {
        let (mut entries, records) = match self.scan(events) {
            Ok(got) => got,
            Err(e) => {
                return Err(e);
            },
        };
        let label = self.source.to_string();
        assert(contents_of(entries) =~= iso_contents(iso_found(self.volume().unwrap())));
        let out = extract_with(&mut entries, &records, options, existing, label.as_str(), events);
        Ok(out)
    }

    /// What is known of the volume as a whole: its entries, the total size
    /// of its files, which is also what they take on the volume, and its
    /// descriptors.
    fn metadata(&self, events: &mut Vec<ArchiveEvent>) -> (r: Result<
        ArchiveMetadata,
        ArchiveError,
    >)
        ensures
            r matches Err(e) ==> e is InvalidDataSource,
            r matches Ok(m) ==> {
                let volume = self.volume().unwrap();
                &&& m.compressed_size == saturated(
                    compressed_size_sum(entity_views(m.entries@), m.entries@.len() as int),
                )
                &&& m.compression is None
                &&& m.additional matches Some(
                    AdditionalMetadata::Iso {
                        is_rock_ridge,
                        block_size,
                        primary_volume_descriptor,
                        publisher_identifier,
                        data_preparer_identifier,
                        application_identifier,
                        copyright_file_identifier,
                        abstract_file_identifier,
                        bibliographic_file_identifier,
                    },
                )
                &&& is_rock_ridge == volume.is_rock_ridge
                &&& block_size == volume.block_size
                &&& primary_volume_descriptor@ == volume.volume_set_identifier@
                &&& publisher_identifier@ == volume.publisher_identifier@
                &&& data_preparer_identifier@ == volume.data_preparer_identifier@
                &&& application_identifier@ == volume.application_identifier@
                &&& optional_text(copyright_file_identifier) == optional_text(
                    volume.copyright_file_identifier,
                )
                &&& optional_text(abstract_file_identifier) == optional_text(
                    volume.abstract_file_identifier,
                )
                &&& optional_text(bibliographic_file_identifier) == optional_text(
                    volume.bibliographic_file_identifier,
                )
            },
    {
        let (_, records) = match self.scan(events) {
            Ok(got) => got,
            Err(e) => {
                return Err(e);
            },
        };
        let volume = match &self.volume {
            Some(v) => v,
            None => {
                return Err(ArchiveError::InvalidDataSource(self.source.to_string()));
            },
        };
        let entities = entities_from(&records);
        let additional = AdditionalMetadata::Iso {
            is_rock_ridge: volume.is_rock_ridge,
            block_size: volume.block_size,
            primary_volume_descriptor: volume.volume_set_identifier.clone(),
            publisher_identifier: volume.publisher_identifier.clone(),
            data_preparer_identifier: volume.data_preparer_identifier.clone(),
            application_identifier: volume.application_identifier.clone(),
            copyright_file_identifier: match &volume.copyright_file_identifier {
                Some(t) => Some(t.clone()),
                None => None,
            },
            abstract_file_identifier: match &volume.abstract_file_identifier {
                Some(t) => Some(t.clone()),
                None => None,
            },
            bibliographic_file_identifier: match &volume.bibliographic_file_identifier {
                Some(t) => Some(t.clone()),
                None => None,
            },
        };
        Ok(
            ArchiveMetadata {
                total_size: total_file_size(&entities),
                compressed_size: total_compressed_size(&entities),
                compression: None,
                entries: entities,
                additional: Some(additional),
            },
        )
    }

    /// Reads the content of the first entry with the exact name
    /// `options.path`; what is no file has no content. A name that no entry
    /// bears is `EntryNotFound`, and then nothing is read.
    fn open(&self, options: &OpenOptions) -> (r: Result<Vec<u8>, ArchiveError>)
        ensures
            self.volume() is None ==> r matches Err(ArchiveError::InvalidDataSource(_)),
    {
        let mut unread: Vec<ArchiveEvent> = Vec::new();
        let (mut entries, records) = match self.scan(&mut unread) {
            Ok(got) => got,
            Err(e) => {
                return Err(e);
            },
        };
        open_with(&mut entries, &records, options.path.as_str())
    }

    /// Refuses: a volume of this kind can only be read.
    fn create(options: &CreateOptions, events: &mut Vec<ArchiveEvent>) -> (r: Result<
        (CreateResult, Vec<u8>),
        ArchiveError,
    >)
        ensures
            final(events)@ == old(events)@,
            r matches Err(ArchiveError::UnsupportedActionForArchiveType(action, kind))
                && action@ == "create"@ && kind == ArchiveType::Iso,
    {
        Err(ArchiveError::UnsupportedActionForArchiveType("create".to_owned(), ArchiveType::Iso))
    }
}

} // verus!
