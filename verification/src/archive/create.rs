//! Creating an archive, for every container format that can be written:
//! which inputs go in, under which names, and what is reported.
use vstd::prelude::*;
use crate::archive::archive_base::{ArchiveFileEntityType, SkipReason};
use crate::archive::entity::{saturated, CreateResult};
use crate::archive::events::{emit, event_views, ArchiveEvent, EventView};
use crate::archive::options::{CreateOptions, SourceFile};
use crate::archive::paths::{is_hidden, is_hidden_name, relative_name, strip_root};

verus! {

/// The name that an input gets inside the archive: its path below the root
/// of the sources; a directory that is the root itself is called `.`.
pub open spec fn archive_name(file: SourceFile, root: Seq<char>) -> Seq<char> {
    let name = relative_name(file.path@, root);
    if file.fstype == ArchiveFileEntityType::Directory && name.len() == 0 {
        "."@
    } else {
        name
    }
}

/// Why an input stays out, if it does: a hidden file where hidden inputs
/// are not wanted; anything that is neither a file nor a directory.
pub open spec fn left_out(file: SourceFile, root: Seq<char>, include_hidden: bool) -> Option<
    SkipReason,
> {
    match file.fstype {
        ArchiveFileEntityType::Directory => None,
        ArchiveFileEntityType::File => if !include_hidden && is_hidden_name(
            archive_name(file, root),
        ) {
            Some(SkipReason::Hidden)
        } else {
            None
        },
        _ => Some(SkipReason::UnknownType),
    }
}

/// An input that goes into the archive: its name there, and its place in
/// the list of inputs.
#[derive(Debug)]
pub struct ArchiveInput {
    pub name: String,
    pub source: usize,
}

/// The mathematical value of an [`ArchiveInput`].
pub struct InputView {
    pub name: Seq<char>,
    pub source: usize,
}

impl View for ArchiveInput {
    type V = InputView;

    open spec fn view(&self) -> InputView {
        InputView { name: self.name@, source: self.source }
    }
}

/// The views of a sequence of inputs, in order.
pub open spec fn input_views(inputs: Seq<ArchiveInput>) -> Seq<InputView> {
    inputs.map_values(|i: ArchiveInput| i@)
}

/// The inputs, among the first `upto`, that go into the archive, in order.
pub open spec fn planned_inputs(
    files: Seq<SourceFile>,
    root: Seq<char>,
    include_hidden: bool,
    upto: int,
) -> Seq<InputView>
    decreases upto,
{
    if upto <= 0 {
        Seq::empty()
    } else {
        let before = planned_inputs(files, root, include_hidden, upto - 1);
        if left_out(files[upto - 1], root, include_hidden) is None {
            before.push(
                InputView { name: archive_name(files[upto - 1], root), source: (upto - 1) as usize },
            )
        } else {
            before
        }
    }
}

/// What is reported of the first `upto` inputs: that it was created, for each
/// one that goes in; that it was skipped, and why, for each one that does not.
pub open spec fn creation_reports(
    files: Seq<SourceFile>,
    root: Seq<char>,
    include_hidden: bool,
    upto: int,
) -> Seq<EventView>
    decreases upto,
{
    if upto <= 0 {
        Seq::empty()
    } else {
        let before = creation_reports(files, root, include_hidden, upto - 1);
        let name = archive_name(files[upto - 1], root);
        match left_out(files[upto - 1], root, include_hidden) {
            None => before.push(EventView::Created(name, files[upto - 1].fstype)),
            Some(reason) => before.push(EventView::Skipped(name, reason)),
        }
    }
}

/// The total size of the files, among the first `upto` inputs, that go into
/// the archive.
pub open spec fn creation_total(
    files: Seq<SourceFile>,
    root: Seq<char>,
    include_hidden: bool,
    upto: int,
) -> int
    decreases upto,
{
    if upto <= 0 {
        0
    } else {
        creation_total(files, root, include_hidden, upto - 1) + (if files[upto - 1].fstype
            == ArchiveFileEntityType::File && left_out(files[upto - 1], root, include_hidden)
            is None {
            files[upto - 1].content@.len() as int
        } else {
            0
        })
    }
}

/// What creating an archive from these options comes to, whatever the
/// container: the destination, the total size of the files that go in, and
/// the size of the archive. Hidden files go in where `hidden` says so.
pub open spec fn creation_result(
    options: CreateOptions,
    hidden: bool,
    archive_len: nat,
    r: CreateResult,
) -> bool {
    &&& r.path@ == options.destination@
    &&& r.total_size == saturated(
        creation_total(options.files@, options.source@, hidden, options.files@.len() as int),
    )
    &&& r.compressed_size == saturated(archive_len as int)
}

/// The name of an input inside the archive.
pub fn name_in_archive(file: &SourceFile, root: &str) -> (r: String)
    ensures
        r@ == archive_name(*file, root@),
{
    let name = strip_root(file.path.as_str(), root);
    if file.fstype == ArchiveFileEntityType::Directory && name.as_str().unicode_len() == 0 {
        proof {
            reveal_strlit(".");
        }
        ".".to_owned()
    } else {
        name
    }
}

/// Decides which inputs go into the archive and under which names, reports
/// each input, and adds up the sizes of the files that go in. Hidden files
/// go in where `hidden` says so.
pub fn plan_inputs(options: &CreateOptions, hidden: bool, events: &mut Vec<ArchiveEvent>) -> (r: (
    Vec<ArchiveInput>,
    u64,
))
    ensures
        input_views(r.0@) == planned_inputs(
            options.files@,
            options.source@,
            hidden,
            options.files@.len() as int,
        ),
        forall|k: int| 0 <= k < r.0@.len() ==> (#[trigger] r.0@[k]).source < options.files@.len(),
        r.1 == saturated(
            creation_total(
                options.files@,
                options.source@,
                hidden,
                options.files@.len() as int,
            ),
        ),
        event_views(final(events)@) == event_views(old(events)@) + creation_reports(
            options.files@,
            options.source@,
            hidden,
            options.files@.len() as int,
        ),
{
    let ghost files = options.files@;
    let ghost root = options.source@;
    let mut inputs: Vec<ArchiveInput> = Vec::new();
    let mut total: u64 = 0;
    let mut i: usize = 0;
    while i < options.files.len()
        invariant
            i <= files.len(),
            files == options.files@,
            root == options.source@,
            input_views(inputs@) == planned_inputs(files, root, hidden, i as int),
            forall|k: int| 0 <= k < inputs@.len() ==> (#[trigger] inputs@[k]).source < files.len(),
            creation_total(files, root, hidden, i as int) >= 0,
            total == saturated(creation_total(files, root, hidden, i as int)),
            event_views(events@) == event_views(old(events)@) + creation_reports(
                files,
                root,
                hidden,
                i as int,
            ),
        decreases files.len() - i,
    {
        let file = &options.files[i];
        let name = name_in_archive(file, options.source.as_str());
        let ghost before = input_views(inputs@);
        let ghost said = creation_reports(files, root, hidden, i as int);
        let skipped: Option<SkipReason> = match file.fstype {
            ArchiveFileEntityType::Directory => None,
            ArchiveFileEntityType::File => if !hidden && is_hidden(name.as_str()) {
                Some(SkipReason::Hidden)
            } else {
                None
            },
            _ => Some(SkipReason::UnknownType),
        };
        match skipped {
            None => {
                emit(events, ArchiveEvent::Created(name.clone(), file.fstype));
                if file.fstype == ArchiveFileEntityType::File {
                    total = total.saturating_add(file.content.len() as u64);
                }
                let input = ArchiveInput { name, source: i };
                inputs.push(input);
                assert(input_views(inputs@) =~= before.push(input@));
            },
            Some(reason) => {
                emit(events, ArchiveEvent::Skipped(name, reason));
            },
        }
        assert(event_views(events@) =~= event_views(old(events)@) + creation_reports(
            files,
            root,
            hidden,
            i + 1,
        ));
        i += 1;
    }
    (inputs, total)
}

/// Puts together what creating an archive came to.
pub fn summarize(options: &CreateOptions, total_size: u64, archive: &Vec<u8>) -> (r: CreateResult)
    ensures
        r.path@ == options.destination@,
        r.total_size == total_size,
        r.compressed_size == saturated(archive@.len() as int),
{
    CreateResult {
        path: options.destination.clone(),
        total_size,
        compressed_size: archive.len() as u64,
    }
}

} // verus!
