//! Unpacking, for every container format: which entries are taken, in what
//! order, what is written for each, and what is reported.
use vstd::prelude::*;
use crate::archive::archive_base::{ArchiveError, ArchiveFileEntityType, Fault, SkipReason};
use crate::archive::entity::{ArchiveFileEntity, EntityView};
use crate::archive::events::{emit, event_views, ArchiveEvent, EventView};
use crate::archive::options::{contains_name, names_of, ExtractOptions};
use crate::archive::paths::{
    is_enclosed, is_enclosed_name, is_hidden, is_hidden_name, is_within, join, joined,
    lies_within, parent, parent_of,
};

verus! {

/// An entry of a container as its format found it: the entity that is
/// listed, the number under which the container yields its content, and what
/// unpacking needs beside.
#[derive(Debug)]
pub struct EntryRecord {
    pub index: usize,
    pub entity: ArchiveFileEntity,
    /// Where a symbolic link points.
    pub link_target: Option<String>,
    /// The permission bits, where the container keeps them.
    pub mode: Option<u32>,
}

/// The mathematical value of an [`EntryRecord`].
pub struct RecordView {
    pub index: usize,
    pub entity: EntityView,
    pub link_target: Option<Seq<char>>,
    pub mode: Option<u32>,
}

impl View for EntryRecord {
    type V = RecordView;

    open spec fn view(&self) -> RecordView {
        RecordView {
            index: self.index,
            entity: self.entity@,
            link_target: match self.link_target {
                Some(t) => Some(t@),
                None => None,
            },
            mode: self.mode,
        }
    }
}

/// The views of a sequence of records, in order.
pub open spec fn record_views(records: Seq<EntryRecord>) -> Seq<RecordView> {
    records.map_values(|r: EntryRecord| r@)
}

/// The entities of a sequence of records, in order.
pub open spec fn entities_of(records: Seq<RecordView>) -> Seq<EntityView> {
    records.map_values(|r: RecordView| r.entity)
}

/// Something to put at the destination: a file with its content, a
/// directory, or a symbolic link.
#[derive(Debug)]
pub struct ExtractedEntry {
    /// The number of the entry in its container.
    pub index: usize,
    /// The name of the entry inside the container.
    pub name: String,
    /// Where it goes: the name, below the destination.
    pub path: String,
    pub fstype: ArchiveFileEntityType,
    /// The bytes of a file; empty for anything else.
    pub content: Vec<u8>,
    /// Where a symbolic link is to point: its target, taken from the
    /// directory that the link itself goes to.
    pub link_target: Option<String>,
    pub mode: Option<u32>,
    /// Whether something was at the path before.
    pub replaces: bool,
}

/// The mathematical value of an [`ExtractedEntry`].
pub struct ExtractedView {
    pub index: usize,
    pub name: Seq<char>,
    pub path: Seq<char>,
    pub fstype: ArchiveFileEntityType,
    pub content: Seq<u8>,
    pub link_target: Option<Seq<char>>,
    pub mode: Option<u32>,
    pub replaces: bool,
}

impl View for ExtractedEntry {
    type V = ExtractedView;

    open spec fn view(&self) -> ExtractedView {
        ExtractedView {
            index: self.index,
            name: self.name@,
            path: self.path@,
            fstype: self.fstype,
            content: self.content@,
            link_target: match self.link_target {
                Some(t) => Some(t@),
                None => None,
            },
            mode: self.mode,
            replaces: self.replaces,
        }
    }
}

/// The views of a sequence of extracted entries, in order.
pub open spec fn extracted_views(entries: Seq<ExtractedEntry>) -> Seq<ExtractedView> {
    entries.map_values(|e: ExtractedEntry| e@)
}

/// Whether everything that is to be written stays below a destination:
/// each name is a relative one without a part that stands for the directory
/// above, and each path is that name below the destination.
pub open spec fn stays_below(written: Seq<ExtractedView>, destination: Seq<char>) -> bool {
    forall|k: int|
        0 <= k < written.len() ==> is_enclosed_name((#[trigger] written[k]).name) && written[k].path
            == joined(destination, written[k].name)
}

/// What decides over an entry: the options, and the names that exist at the
/// destination before anything is unpacked.
pub struct ExtractPolicy {
    pub destination: Seq<char>,
    pub files: Option<Seq<Seq<char>>>,
    pub overwrite: bool,
    pub show_hidden: bool,
    pub existing: Seq<Seq<char>>,
}

/// The policy that options and existing names make.
pub open spec fn policy_of(options: ExtractOptions, existing: Seq<String>) -> ExtractPolicy {
    ExtractPolicy {
        destination: options.destination@,
        files: match options.files {
            Some(list) => Some(names_of(list@)),
            None => None,
        },
        overwrite: options.overwrite,
        show_hidden: options.show_hidden,
        existing: names_of(existing),
    }
}

/// What becomes of an entry.
#[derive(Debug, PartialEq, Eq, Clone, Copy, Structural)]
pub enum Disposition {
    /// It was not asked for: nothing is done and nothing is said.
    Ignore,
    /// Its name would leave the destination: it is reported as an entry
    /// that cannot be read, and nothing is put anywhere.
    Refuse,
    /// It is passed over, and that is reported.
    Skip(SkipReason),
    /// It is unpacked in its turn.
    Unpack,
    /// It is a directory: it is made after every file is unpacked.
    Defer,
}

/// An entry is asked for where no subset is given, where the subset holds
/// its exact name, or where it is a directory that an entry of the subset
/// lies within.
pub open spec fn is_selected(
    name: Seq<char>,
    fstype: ArchiveFileEntityType,
    files: Option<Seq<Seq<char>>>,
) -> bool {
    match files {
        None => true,
        Some(list) => list.contains(name) || (fstype == ArchiveFileEntityType::Directory
            && exists|i: int| 0 <= i < list.len() && is_within(name, #[trigger] list[i])),
    }
}

/// What becomes of an entry under a policy. The subset is asked first; an
/// entry that was asked for and whose name would leave the destination is
/// refused; then it is asked whether the destination exists already, then
/// whether the entry is hidden.
pub open spec fn disposition_of(e: EntityView, p: ExtractPolicy) -> Disposition {
    if !is_selected(e.name, e.fstype, p.files) {
        Disposition::Ignore
    } else if !is_enclosed_name(e.name) {
        Disposition::Refuse
    } else if p.existing.contains(e.name) && !p.overwrite {
        Disposition::Skip(SkipReason::AlreadyExists)
    } else if !p.show_hidden && is_hidden_name(e.name) {
        Disposition::Skip(SkipReason::Hidden)
    } else {
        match e.fstype {
            ArchiveFileEntityType::Directory => Disposition::Defer,
            ArchiveFileEntityType::Unknown => Disposition::Skip(SkipReason::UnknownType),
            _ => Disposition::Unpack,
        }
    }
}

/// What is put at the destination for a record with this content.
pub open spec fn extracted_of(r: RecordView, content: Seq<u8>, p: ExtractPolicy) -> ExtractedView {
    let path = joined(p.destination, r.entity.name);
    ExtractedView {
        index: r.index,
        name: r.entity.name,
        path,
        fstype: r.entity.fstype,
        content,
        link_target: match r.link_target {
            Some(t) => Some(joined(parent_of(path), t)),
            None => None,
        },
        mode: r.mode,
        replaces: p.existing.contains(r.entity.name),
    }
}

/// What the pass over the files does with one record, whose content is
/// `content` where it can be read: what it writes and what it reports.
pub open spec fn file_step(r: RecordView, content: Result<Seq<u8>, Fault>, p: ExtractPolicy) -> (
    Seq<ExtractedView>,
    Seq<EventView>,
) {
    match disposition_of(r.entity, p) {
        Disposition::Ignore => (Seq::empty(), Seq::empty()),
        Disposition::Defer => (Seq::empty(), Seq::empty()),
        Disposition::Refuse => (
            Seq::empty(),
            seq![EventView::FailedToReadEntry(r.entity.name, Fault::InvalidDataSource)],
        ),
        Disposition::Skip(reason) => (
            Seq::empty(),
            seq![EventView::Skipped(r.entity.name, reason)],
        ),
        Disposition::Unpack => match content {
            Ok(bytes) => (
                seq![extracted_of(r, bytes, p)],
                seq![EventView::Extracting(r.entity.name, r.entity.size)],
            ),
            Err(kind) => (
                Seq::empty(),
                seq![
                    EventView::Extracting(r.entity.name, r.entity.size),
                    EventView::FailedToReadEntry(r.entity.name, kind),
                ],
            ),
        },
    }
}

/// What the pass over the directories does with one record.
pub open spec fn directory_step(r: RecordView, p: ExtractPolicy) -> (
    Seq<ExtractedView>,
    Seq<EventView>,
) {
    if disposition_of(r.entity, p) == Disposition::Defer {
        (
            seq![extracted_of(r, Seq::empty(), p)],
            seq![
                EventView::Created(
                    joined(p.destination, r.entity.name),
                    ArchiveFileEntityType::Directory,
                ),
            ],
        )
    } else {
        (Seq::empty(), Seq::empty())
    }
}

/// The pass over the files, through the first `upto` records.
pub open spec fn file_pass(
    records: Seq<RecordView>,
    contents: spec_fn(usize) -> Result<Seq<u8>, Fault>,
    p: ExtractPolicy,
    upto: int,
) -> (Seq<ExtractedView>, Seq<EventView>)
    decreases upto,
{
    if upto <= 0 {
        (Seq::empty(), Seq::empty())
    } else {
        let before = file_pass(records, contents, p, upto - 1);
        let step = file_step(records[upto - 1], contents(records[upto - 1].index), p);
        (before.0 + step.0, before.1 + step.1)
    }
}

/// The pass over the directories, through the first `upto` records.
pub open spec fn directory_pass(records: Seq<RecordView>, p: ExtractPolicy, upto: int) -> (
    Seq<ExtractedView>,
    Seq<EventView>,
)
    decreases upto,
{
    if upto <= 0 {
        (Seq::empty(), Seq::empty())
    } else {
        let before = directory_pass(records, p, upto - 1);
        let step = directory_step(records[upto - 1], p);
        (before.0 + step.0, before.1 + step.1)
    }
}

/// What unpacking writes and reports: first the files and links, in the
/// order of the container; then the directories, in that order too; at the
/// end one report that the source, called `label`, is done.
pub open spec fn extraction(
    records: Seq<RecordView>,
    contents: spec_fn(usize) -> Result<Seq<u8>, Fault>,
    p: ExtractPolicy,
    label: Seq<char>,
) -> (Seq<ExtractedView>, Seq<EventView>) {
    let files = file_pass(records, contents, p, records.len() as int);
    let directories = directory_pass(records, p, records.len() as int);
    (
        files.0 + directories.0,
        files.1 + directories.1 + seq![EventView::DoneExtracting(label, p.destination)],
    )
}

/// What reading ends in: the content where there is one, else an error of
/// the kind `fault`.
pub open spec fn read_or(content: Option<Seq<u8>>, fault: Fault) -> Result<Seq<u8>, Fault> {
    match content {
        Some(bytes) => Ok(bytes),
        None => Err(fault),
    }
}

/// Yields the content of the entries of one container, by their numbers.
pub trait EntryReader {
    /// The content of the entry with this number, or the kind of the error
    /// that reading it ends in.
    spec fn content(&self, index: usize) -> Result<Seq<u8>, Fault>;

    /// Reads the content of an entry. What can be read of any entry stays
    /// the same.
    fn read(&mut self, index: usize) -> (r: Result<Vec<u8>, ArchiveError>)
        ensures
            forall|i: usize| #[trigger] final(self).content(i) == old(self).content(i),
            match old(self).content(index) {
                Ok(content) => r matches Ok(bytes) && bytes@ == content,
                Err(kind) => r matches Err(e) && e.fault() == kind,
            },
    ;
}

/// What a reader yields, as a function of the entry's number.
pub open spec fn contents_of<R: EntryReader>(reader: R) -> spec_fn(usize) -> Result<Seq<u8>, Fault> {
    |i: usize| reader.content(i)
}

/// Whether a directory holds one of the names of a list.
pub fn holds_any(dir: &str, list: &Vec<String>) -> (r: bool)
    ensures
        r == exists|i: int|
            0 <= i < names_of(list@).len() && is_within(dir@, #[trigger] names_of(list@)[i]),
{
    let mut i: usize = 0;
    while i < list.len()
        invariant
            i <= list@.len(),
            forall|j: int| 0 <= j < i ==> !is_within(dir@, #[trigger] names_of(list@)[j]),
        decreases list@.len() - i,
    {
        if lies_within(dir, list[i].as_str()) {
            let ghost all = names_of(list@);
            assert(0 <= i < all.len() && is_within(dir@, all[i as int]));
            return true;
        }
        i += 1;
    }
    false
}

/// Whether an entry is asked for.
pub fn selected(name: &str, fstype: ArchiveFileEntityType, files: &Option<Vec<String>>) -> (r:
    bool)
    ensures
        r == is_selected(
            name@,
            fstype,
            match files {
                Some(list) => Some(names_of(list@)),
                None => None,
            },
        ),
{
    match files {
        None => true,
        Some(list) => contains_name(list, name) || (fstype == ArchiveFileEntityType::Directory
            && holds_any(name, list)),
    }
}

/// Decides what becomes of an entry.
pub fn disposition(entity: &ArchiveFileEntity, options: &ExtractOptions, existing: &Vec<String>) -> (r:
    Disposition)
    ensures
        r == disposition_of(entity@, policy_of(*options, existing@)),
{
    if !selected(entity.name(), entity.fstype(), &options.files) {
        Disposition::Ignore
    } else if !is_enclosed(entity.name()) {
        Disposition::Refuse
    } else if contains_name(existing, entity.name()) && !options.overwrite {
        Disposition::Skip(SkipReason::AlreadyExists)
    } else if !options.show_hidden && is_hidden(entity.name()) {
        Disposition::Skip(SkipReason::Hidden)
    } else {
        match entity.fstype() {
            ArchiveFileEntityType::Directory => Disposition::Defer,
            ArchiveFileEntityType::Unknown => Disposition::Skip(SkipReason::UnknownType),
            _ => Disposition::Unpack,
        }
    }
}

/// Makes what is put at the destination for a record.
pub fn place(record: &EntryRecord, content: Vec<u8>, options: &ExtractOptions, existing: &Vec<
    String,
>) -> (r: ExtractedEntry)
    ensures
        r@ == extracted_of(record@, content@, policy_of(*options, existing@)),
{
    let name = record.entity.name();
    let path = join(options.destination.as_str(), name);
    let link_target = match &record.link_target {
        Some(t) => {
            let holder = parent(path.as_str());
            Some(join(holder.as_str(), t.as_str()))
        },
        None => None,
    };
    ExtractedEntry {
        index: record.index,
        name: name.to_owned(),
        path,
        fstype: record.entity.fstype(),
        content,
        link_target,
        mode: record.mode,
        replaces: contains_name(existing, name),
    }
}

/// Unpacks the records of a container whose contents `reader` yields.
///
/// Entries are taken in the order of the container, directories after all
/// others. An entry whose content cannot be read is reported and left out;
/// the others are still unpacked. So is an entry whose name would leave the
/// destination: nothing is ever placed outside it. Every report is appended
/// to `events`.
pub fn extract_with<R: EntryReader>(
    reader: &mut R,
    records: &Vec<EntryRecord>,
    options: &ExtractOptions,
    existing: &Vec<String>,
    label: &str,
    events: &mut Vec<ArchiveEvent>,
) -> (out: Vec<ExtractedEntry>)
    ensures
        forall|i: usize| #[trigger] final(reader).content(i) == old(reader).content(i),
        extracted_views(out@) == extraction(
            record_views(records@),
            contents_of(*old(reader)),
            policy_of(*options, existing@),
            label@,
        ).0,
        event_views(final(events)@) == event_views(old(events)@) + extraction(
            record_views(records@),
            contents_of(*old(reader)),
            policy_of(*options, existing@),
            label@,
        ).1,
        stays_below(extracted_views(out@), options.destination@),
{
    let ghost views = record_views(records@);
    let ghost contents = contents_of(*old(reader));
    let ghost p = policy_of(*options, existing@);
    let mut out: Vec<ExtractedEntry> = Vec::new();
    let n = records.len();
    let mut k: usize = 0;
    while k < n
        invariant
            k <= n,
            n == records@.len(),
            views == record_views(records@),
            p == policy_of(*options, existing@),
            contents == contents_of(*old(reader)),
            forall|i: usize| #[trigger] reader.content(i) == old(reader).content(i),
            extracted_views(out@) == file_pass(views, contents, p, k as int).0,
            event_views(events@) == event_views(old(events)@) + file_pass(
                views,
                contents,
                p,
                k as int,
            ).1,
        decreases n - k,
    {
        let record = &records[k];
        assert(views[k as int] == record@);
        let ghost before = extracted_views(out@);
        let ghost said = event_views(events@);
        let ghost step = file_step(record@, contents(record.index), p);
        match disposition(&record.entity, options, existing) {
            Disposition::Ignore => {},
            Disposition::Defer => {},
            Disposition::Refuse => {
                emit(
                    events,
                    ArchiveEvent::FailedToReadEntry(
                        record.entity.name().to_owned(),
                        ArchiveError::InvalidDataSource(record.entity.name().to_owned()),
                    ),
                );
            },
            Disposition::Skip(reason) => {
                emit(events, ArchiveEvent::Skipped(record.entity.name().to_owned(), reason));
            },
            Disposition::Unpack => {
                emit(
                    events,
                    ArchiveEvent::Extracting(
                        record.entity.name().to_owned(),
                        record.entity.size(),
                    ),
                );
                assert(reader.content(record.index) == old(reader).content(record.index));
                match reader.read(record.index) {
                    Ok(bytes) => {
                        out.push(place(record, bytes, options, existing));
                    },
                    Err(e) => {
                        emit(
                            events,
                            ArchiveEvent::FailedToReadEntry(record.entity.name().to_owned(), e),
                        );
                    },
                }
            },
        }
        assert(extracted_views(out@) =~= before + step.0);
        assert(event_views(events@) =~= said + step.1);
        assert(event_views(events@) =~= event_views(old(events)@) + (file_pass(
            views,
            contents,
            p,
            k as int,
        ).1 + step.1));
        k += 1;
    }
    let ghost files = file_pass(views, contents, p, n as int);
    k = 0;
    while k < n
        invariant
            k <= n,
            n == records@.len(),
            views == record_views(records@),
            p == policy_of(*options, existing@),
            forall|i: usize| #[trigger] reader.content(i) == old(reader).content(i),
            extracted_views(out@) == files.0 + directory_pass(views, p, k as int).0,
            event_views(events@) == event_views(old(events)@) + files.1 + directory_pass(
                views,
                p,
                k as int,
            ).1,
        decreases n - k,
    {
        let record = &records[k];
        assert(views[k as int] == record@);
        let ghost before = extracted_views(out@);
        let ghost said = event_views(events@);
        let ghost step = directory_step(record@, p);
        match disposition(&record.entity, options, existing) {
            Disposition::Defer => {
                let made = place(record, Vec::new(), options, existing);
                emit(
                    events,
                    ArchiveEvent::Created(made.path.clone(), ArchiveFileEntityType::Directory),
                );
                out.push(made);
            },
            _ => {},
        }
        assert(extracted_views(out@) =~= before + step.0);
        assert(event_views(events@) =~= said + step.1);
        assert(extracted_views(out@) =~= files.0 + (directory_pass(views, p, k as int).0
            + step.0));
        assert(event_views(events@) =~= event_views(old(events)@) + files.1 + (directory_pass(
            views,
            p,
            k as int,
        ).1 + step.1));
        k += 1;
    }
    emit(events, ArchiveEvent::DoneExtracting(label.to_owned(), options.destination.clone()));
    proof {
        lemma_extraction_obeys_policy(views, contents, p, label@);
        assert(extracted_views(out@) == extraction(views, contents, p, label@).0);
    }
    out
}

/// What holds of everything that unpacking writes under a policy: it was
/// asked for; its name stays below the destination, and its path is that
/// name below the destination; it is marked as replacing exactly where its
/// name existed, which happens only where overwriting is allowed; and it is
/// hidden only where hidden entries are unpacked.
pub open spec fn obeys_policy(w: ExtractedView, p: ExtractPolicy) -> bool {
    &&& is_selected(w.name, w.fstype, p.files)
    &&& is_enclosed_name(w.name)
    &&& w.path == joined(p.destination, w.name)
    &&& w.replaces == p.existing.contains(w.name)
    &&& w.replaces ==> p.overwrite
    &&& is_hidden_name(w.name) ==> p.show_hidden
}

/// What holds of the content of everything that unpacking writes: a
/// directory has none, and anything else has what was read of its entry.
pub open spec fn was_read(w: ExtractedView, contents: spec_fn(usize) -> Result<Seq<u8>, Fault>) -> bool {
    if w.fstype == ArchiveFileEntityType::Directory {
        w.content == Seq::<u8>::empty()
    } else {
        contents(w.index) == Ok::<Seq<u8>, Fault>(w.content)
    }
}

proof fn lemma_file_pass_obeys_policy(
    records: Seq<RecordView>,
    contents: spec_fn(usize) -> Result<Seq<u8>, Fault>,
    p: ExtractPolicy,
    upto: int,
)
    requires
        0 <= upto <= records.len(),
    ensures
        forall|k: int|
            0 <= k < file_pass(records, contents, p, upto).0.len() ==> obeys_policy(
                #[trigger] file_pass(records, contents, p, upto).0[k],
                p,
            ) && was_read(file_pass(records, contents, p, upto).0[k], contents),
    decreases upto,
{
    if upto > 0 {
        lemma_file_pass_obeys_policy(records, contents, p, upto - 1);
        let before = file_pass(records, contents, p, upto - 1);
        let step = file_step(records[upto - 1], contents(records[upto - 1].index), p);
        assert forall|k: int| 0 <= k < (before.0 + step.0).len() implies obeys_policy(
            #[trigger] (before.0 + step.0)[k],
            p,
        ) && was_read((before.0 + step.0)[k], contents) by {
            if k >= before.0.len() {
                assert((before.0 + step.0)[k] == step.0[k - before.0.len()]);
            } else {
                assert((before.0 + step.0)[k] == before.0[k]);
            }
        }
    }
}

proof fn lemma_directory_pass_obeys_policy(records: Seq<RecordView>, p: ExtractPolicy, upto: int)
    requires
        0 <= upto <= records.len(),
    ensures
        forall|k: int|
            0 <= k < directory_pass(records, p, upto).0.len() ==> obeys_policy(
                #[trigger] directory_pass(records, p, upto).0[k],
                p,
            ) && directory_pass(records, p, upto).0[k].fstype == ArchiveFileEntityType::Directory
                && directory_pass(records, p, upto).0[k].content == Seq::<u8>::empty(),
    decreases upto,
{
    if upto > 0 {
        lemma_directory_pass_obeys_policy(records, p, upto - 1);
        let before = directory_pass(records, p, upto - 1);
        let step = directory_step(records[upto - 1], p);
        assert forall|k: int| 0 <= k < (before.0 + step.0).len() implies obeys_policy(
            #[trigger] (before.0 + step.0)[k],
            p,
        ) && (before.0 + step.0)[k].fstype == ArchiveFileEntityType::Directory && (before.0
            + step.0)[k].content == Seq::<u8>::empty() by {
            if k >= before.0.len() {
                assert((before.0 + step.0)[k] == step.0[k - before.0.len()]);
            } else {
                assert((before.0 + step.0)[k] == before.0[k]);
            }
        }
    }
}

/// Nothing is written that was not read: the content of everything that
/// unpacking writes is the content of its entry as the container yields it,
/// and a directory has none.
pub proof fn lemma_written_content_was_read(
    records: Seq<RecordView>,
    contents: spec_fn(usize) -> Result<Seq<u8>, Fault>,
    p: ExtractPolicy,
    label: Seq<char>,
)
    ensures
        forall|k: int|
            0 <= k < extraction(records, contents, p, label).0.len() ==> was_read(
                #[trigger] extraction(records, contents, p, label).0[k],
                contents,
            ),
{
    lemma_file_pass_obeys_policy(records, contents, p, records.len() as int);
    lemma_directory_pass_obeys_policy(records, p, records.len() as int);
}

/// Unpacking writes nothing but what the policy allows. In particular,
/// nothing is put outside the destination: every name that is written is a
/// relative one without a part that stands for the directory above; with a
/// subset of names given, every file that is written bears a name of the
/// subset, character for character; and without leave to overwrite, nothing
/// is written over a name that exists.
pub proof fn lemma_extraction_obeys_policy(
    records: Seq<RecordView>,
    contents: spec_fn(usize) -> Result<Seq<u8>, Fault>,
    p: ExtractPolicy,
    label: Seq<char>,
)
    ensures
        forall|k: int|
            0 <= k < extraction(records, contents, p, label).0.len() ==> {
                let w = #[trigger] extraction(records, contents, p, label).0[k];
                &&& obeys_policy(w, p)
                &&& is_enclosed_name(w.name)
                &&& (p.files is Some && w.fstype != ArchiveFileEntityType::Directory
                    ==> p.files.unwrap().contains(w.name))
                &&& (!p.overwrite ==> !p.existing.contains(w.name))
            },
{
    lemma_file_pass_obeys_policy(records, contents, p, records.len() as int);
    lemma_directory_pass_obeys_policy(records, p, records.len() as int);
}

/// What one of two sequences holds, the two put together hold.
proof fn lemma_concat_contains<A>(a: Seq<A>, b: Seq<A>, x: A)
    requires
        a.contains(x) || b.contains(x),
    ensures
        (a + b).contains(x),
{
    if a.contains(x) {
        let at = choose|at: int| 0 <= at < a.len() && a[at] == x;
        assert((a + b)[at] == x);
    } else {
        let at = choose|at: int| 0 <= at < b.len() && b[at] == x;
        assert((a + b)[a.len() + at] == x);
    }
}

proof fn lemma_file_pass_grows(
    records: Seq<RecordView>,
    contents: spec_fn(usize) -> Result<Seq<u8>, Fault>,
    p: ExtractPolicy,
    i: int,
    upto: int,
)
    requires
        0 <= i < upto <= records.len(),
    ensures
        forall|e: EventView|
            file_step(records[i], contents(records[i].index), p).1.contains(e) ==> file_pass(
                records,
                contents,
                p,
                upto,
            ).1.contains(e),
        forall|w: ExtractedView|
            file_step(records[i], contents(records[i].index), p).0.contains(w) ==> file_pass(
                records,
                contents,
                p,
                upto,
            ).0.contains(w),
    decreases upto,
{
    let before = file_pass(records, contents, p, upto - 1);
    let step = file_step(records[upto - 1], contents(records[upto - 1].index), p);
    if i < upto - 1 {
        lemma_file_pass_grows(records, contents, p, i, upto - 1);
    }
    assert forall|e: EventView|
        file_step(records[i], contents(records[i].index), p).1.contains(e) implies (before.1
        + step.1).contains(e) by {
        lemma_concat_contains(before.1, step.1, e);
    }
    assert forall|w: ExtractedView|
        file_step(records[i], contents(records[i].index), p).0.contains(w) implies (before.0
        + step.0).contains(w) by {
        lemma_concat_contains(before.0, step.0, w);
    }
}

/// Without leave to overwrite, an entry that was asked for, whose name stays
/// below the destination and exists there, is reported as skipped for that
/// reason.
pub proof fn lemma_existing_entry_is_skipped(
    records: Seq<RecordView>,
    contents: spec_fn(usize) -> Result<Seq<u8>, Fault>,
    p: ExtractPolicy,
    label: Seq<char>,
    i: int,
)
    requires
        0 <= i < records.len(),
        !p.overwrite,
        p.existing.contains(records[i].entity.name),
        is_selected(records[i].entity.name, records[i].entity.fstype, p.files),
        is_enclosed_name(records[i].entity.name),
    ensures
        extraction(records, contents, p, label).1.contains(
            EventView::Skipped(records[i].entity.name, SkipReason::AlreadyExists),
        ),
{
    let e = EventView::Skipped(records[i].entity.name, SkipReason::AlreadyExists);
    let step = file_step(records[i], contents(records[i].index), p);
    assert(step.1[0] == e);
    assert(step.1.contains(e));
    lemma_file_pass_grows(records, contents, p, i, records.len() as int);
    let files = file_pass(records, contents, p, records.len() as int);
    let directories = directory_pass(records, p, records.len() as int);
    lemma_concat_contains(files.1, directories.1, e);
    lemma_concat_contains(
        files.1 + directories.1,
        seq![EventView::DoneExtracting(label, p.destination)],
        e,
    );
}

/// With leave to overwrite, a file or link that was asked for, whose name
/// stays below the destination and exists there, and whose content can be
/// read, is written with that content and marked as replacing; and it is
/// not reported as skipped. A hidden entry is left out where hidden entries
/// are not unpacked: it is skipped as hidden, whatever exists.
pub proof fn lemma_existing_entry_is_replaced(
    records: Seq<RecordView>,
    contents: spec_fn(usize) -> Result<Seq<u8>, Fault>,
    p: ExtractPolicy,
    label: Seq<char>,
    i: int,
)
    requires
        0 <= i < records.len(),
        p.overwrite,
        p.existing.contains(records[i].entity.name),
        is_selected(records[i].entity.name, records[i].entity.fstype, p.files),
        is_enclosed_name(records[i].entity.name),
        p.show_hidden || !is_hidden_name(records[i].entity.name),
        records[i].entity.fstype == ArchiveFileEntityType::File || records[i].entity.fstype
            == ArchiveFileEntityType::SymbolicLink,
        contents(records[i].index) is Ok,
    ensures
        extracted_of(records[i], contents(records[i].index)->Ok_0, p).replaces,
        extracted_of(records[i], contents(records[i].index)->Ok_0, p).content == contents(
            records[i].index,
        )->Ok_0,
        extraction(records, contents, p, label).0.contains(
            extracted_of(records[i], contents(records[i].index)->Ok_0, p),
        ),
        !extraction(records, contents, p, label).1.contains(
            EventView::Skipped(records[i].entity.name, SkipReason::AlreadyExists),
        ),
{
    let w = extracted_of(records[i], contents(records[i].index)->Ok_0, p);
    assert(disposition_of(records[i].entity, p) == Disposition::Unpack);
    let step = file_step(records[i], contents(records[i].index), p);
    assert(step.0[0] == w);
    assert(step.0.contains(w));
    lemma_file_pass_grows(records, contents, p, i, records.len() as int);
    let files = file_pass(records, contents, p, records.len() as int);
    let directories = directory_pass(records, p, records.len() as int);
    lemma_concat_contains(files.0, directories.0, w);
    lemma_only_existing_entries_are_skipped(records, contents, p, label);
    let said = extraction(records, contents, p, label).1;
    let skipped = EventView::Skipped(records[i].entity.name, SkipReason::AlreadyExists);
    if said.contains(skipped) {
        let k = choose|k: int| 0 <= k < said.len() && said[k] == skipped;
        assert(is_fair_report(said[k], p));
    }
}

/// Whether a report is one that the policy allows: an entry is reported as
/// skipped because it exists only where its name exists at the destination
/// and there is no leave to overwrite.
pub open spec fn is_fair_report(e: EventView, p: ExtractPolicy) -> bool {
    e matches EventView::Skipped(name, SkipReason::AlreadyExists) ==> p.existing.contains(name)
        && !p.overwrite
}

proof fn lemma_file_pass_reports_fairly(
    records: Seq<RecordView>,
    contents: spec_fn(usize) -> Result<Seq<u8>, Fault>,
    p: ExtractPolicy,
    upto: int,
)
    requires
        0 <= upto <= records.len(),
    ensures
        forall|k: int|
            0 <= k < file_pass(records, contents, p, upto).1.len() ==> is_fair_report(
                #[trigger] file_pass(records, contents, p, upto).1[k],
                p,
            ),
    decreases upto,
{
    if upto > 0 {
        lemma_file_pass_reports_fairly(records, contents, p, upto - 1);
        let before = file_pass(records, contents, p, upto - 1);
        let step = file_step(records[upto - 1], contents(records[upto - 1].index), p);
        assert forall|k: int| 0 <= k < (before.1 + step.1).len() implies is_fair_report(
            #[trigger] (before.1 + step.1)[k],
            p,
        ) by {
            if k >= before.1.len() {
                assert((before.1 + step.1)[k] == step.1[k - before.1.len()]);
            } else {
                assert((before.1 + step.1)[k] == before.1[k]);
            }
        }
    }
}

proof fn lemma_directory_pass_reports_fairly(records: Seq<RecordView>, p: ExtractPolicy, upto: int)
    requires
        0 <= upto <= records.len(),
    ensures
        forall|k: int|
            0 <= k < directory_pass(records, p, upto).1.len() ==> is_fair_report(
                #[trigger] directory_pass(records, p, upto).1[k],
                p,
            ),
    decreases upto,
{
    if upto > 0 {
        lemma_directory_pass_reports_fairly(records, p, upto - 1);
        let before = directory_pass(records, p, upto - 1);
        let step = directory_step(records[upto - 1], p);
        assert forall|k: int| 0 <= k < (before.1 + step.1).len() implies is_fair_report(
            #[trigger] (before.1 + step.1)[k],
            p,
        ) by {
            if k >= before.1.len() {
                assert((before.1 + step.1)[k] == step.1[k - before.1.len()]);
            } else {
                assert((before.1 + step.1)[k] == before.1[k]);
            }
        }
    }
}

/// No entry is reported as skipped because it exists unless its name exists
/// at the destination and there is no leave to overwrite: with leave to
/// overwrite no such report is made at all, and without it none about an
/// entry whose destination did not exist.
pub proof fn lemma_only_existing_entries_are_skipped(
    records: Seq<RecordView>,
    contents: spec_fn(usize) -> Result<Seq<u8>, Fault>,
    p: ExtractPolicy,
    label: Seq<char>,
)
    ensures
        forall|k: int|
            0 <= k < extraction(records, contents, p, label).1.len() ==> is_fair_report(
                #[trigger] extraction(records, contents, p, label).1[k],
                p,
            ),
{
    lemma_file_pass_reports_fairly(records, contents, p, records.len() as int);
    lemma_directory_pass_reports_fairly(records, p, records.len() as int);
    let files = file_pass(records, contents, p, records.len() as int).1;
    let directories = directory_pass(records, p, records.len() as int).1;
    let done = seq![EventView::DoneExtracting(label, p.destination)];
    assert forall|k: int| 0 <= k < (files + directories + done).len() implies is_fair_report(
        #[trigger] (files + directories + done)[k],
        p,
    ) by {
        if k < files.len() {
            assert((files + directories + done)[k] == files[k]);
        } else if k < files.len() + directories.len() {
            assert((files + directories + done)[k] == directories[k - files.len()]);
        } else {
            assert((files + directories + done)[k] == done[0]);
        }
    }
}

/// Whether two records differ in nothing that unpacking looks at: they are
/// one but for the sizes and times of their entities and the label of the
/// compression.
pub open spec fn unpack_alike(a: RecordView, b: RecordView) -> bool {
    &&& a.index == b.index
    &&& a.entity.name == b.entity.name
    &&& a.entity.fstype == b.entity.fstype
    &&& a.entity.size == b.entity.size
    &&& a.link_target == b.link_target
    &&& a.mode == b.mode
}

/// Whether two sequences of records are of one length and alike record by
/// record.
pub open spec fn all_unpack_alike(a: Seq<RecordView>, b: Seq<RecordView>) -> bool {
    a.len() == b.len() && forall|i: int| 0 <= i < a.len() ==> unpack_alike(#[trigger] a[i], b[i])
}

proof fn lemma_passes_of_alike_records(
    a: Seq<RecordView>,
    b: Seq<RecordView>,
    contents: spec_fn(usize) -> Result<Seq<u8>, Fault>,
    p: ExtractPolicy,
    upto: int,
)
    requires
        all_unpack_alike(a, b),
        0 <= upto <= a.len(),
    ensures
        file_pass(a, contents, p, upto) == file_pass(b, contents, p, upto),
        directory_pass(a, p, upto) == directory_pass(b, p, upto),
    decreases upto,
{
    if upto > 0 {
        lemma_passes_of_alike_records(a, b, contents, p, upto - 1);
        assert(unpack_alike(a[upto - 1], b[upto - 1]));
        assert(disposition_of(a[upto - 1].entity, p) == disposition_of(b[upto - 1].entity, p));
        assert(file_step(a[upto - 1], contents(a[upto - 1].index), p) == file_step(
            b[upto - 1],
            contents(b[upto - 1].index),
            p,
        ));
        assert(directory_step(a[upto - 1], p) == directory_step(b[upto - 1], p));
    }
}

/// Unpacking looks at nothing of a record but its number, its name, its
/// kind, its size, the target of a link and the mode: records that are
/// alike in these are unpacked alike, to the same writes and the same
/// reports.
pub proof fn lemma_alike_records_unpack_alike(
    a: Seq<RecordView>,
    b: Seq<RecordView>,
    contents: spec_fn(usize) -> Result<Seq<u8>, Fault>,
    p: ExtractPolicy,
    label: Seq<char>,
)
    requires
        all_unpack_alike(a, b),
    ensures
        extraction(a, contents, p, label) == extraction(b, contents, p, label),
{
    lemma_passes_of_alike_records(a, b, contents, p, a.len() as int);
}

} // verus!
