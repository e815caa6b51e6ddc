//! What every container format does with the records of its entries.
use vstd::prelude::*;
use crate::archive::entity::{entity_views, ArchiveFileEntity};
use crate::archive::events::EventView;
use crate::archive::archive_base::{ArchiveError, Fault};
use crate::archive::extract::{
    entities_of, record_views, EntryReader, EntryRecord, RecordView,
};
use crate::archive::text::str_equal;

verus! {

/// The name under which an entry is reported whose own name cannot be read.
pub open spec fn unreadable_name() -> Seq<char> {
    "???"@
}

/// The records of the entries, among the first `upto` of a container, whose
/// headers can be read; `headers` gives the record of each entry by its
/// number, where it can be read.
pub open spec fn readable_records(headers: spec_fn(usize) -> Option<RecordView>, upto: int) -> Seq<
    RecordView,
>
    decreases upto,
{
    if upto <= 0 {
        Seq::empty()
    } else {
        let before = readable_records(headers, upto - 1);
        match headers((upto - 1) as usize) {
            Some(r) => before.push(r),
            None => before,
        }
    }
}

/// The reports about the entries, among the first `upto` of a container,
/// whose headers cannot be read: one for each, in order, with an error of
/// the kind `fault`.
pub open spec fn unreadable_reports(
    headers: spec_fn(usize) -> Option<RecordView>,
    fault: Fault,
    upto: int,
) -> Seq<EventView>
    decreases upto,
{
    if upto <= 0 {
        Seq::empty()
    } else {
        let before = unreadable_reports(headers, fault, upto - 1);
        match headers((upto - 1) as usize) {
            Some(_) => before,
            None => before.push(EventView::FailedToReadEntry(unreadable_name(), fault)),
        }
    }
}

/// The entities of a list of records, in order.
pub fn entities_from(records: &Vec<EntryRecord>) -> (r: Vec<ArchiveFileEntity>)
    ensures
        entity_views(r@) == entities_of(record_views(records@)),
{
    let mut out: Vec<ArchiveFileEntity> = Vec::new();
    let mut i: usize = 0;
    while i < records.len()
        invariant
            i <= records@.len(),
            entity_views(out@) == entities_of(record_views(records@)).take(i as int),
        decreases records@.len() - i,
    {
        let ghost before = entity_views(out@);
        let entity = records[i].entity.clone();
        out.push(entity);
        assert(entity_views(out@) =~= before.push(entity@));
        assert(entities_of(record_views(records@))[i as int] == records@[i as int]@.entity);
        assert(entity_views(out@) =~= entities_of(record_views(records@)).take(i + 1));
        i += 1;
    }
    assert(entities_of(record_views(records@)).take(records@.len() as int) =~= entities_of(
        record_views(records@),
    ));
    out
}

/// The first record with this exact name, if there is one.
pub open spec fn first_named(records: Seq<RecordView>, name: Seq<char>) -> Option<RecordView>
    decreases records.len(),
{
    if records.len() == 0 {
        None
    } else if records[0].entity.name == name {
        Some(records[0])
    } else {
        first_named(records.drop_first(), name)
    }
}

/// `first_named` is the record before which no record has the name.
pub proof fn lemma_first_named(records: Seq<RecordView>, name: Seq<char>, at: int)
    requires
        0 <= at <= records.len(),
        forall|j: int| 0 <= j < at ==> (#[trigger] records[j]).entity.name != name,
        at < records.len() ==> records[at].entity.name == name,
    ensures
        first_named(records, name) == if at < records.len() {
            Some(records[at])
        } else {
            None
        },
    decreases records.len(),
{
    if records.len() > 0 && at > 0 {
        assert(records[0].entity.name != name);
        let rest = records.drop_first();
        assert forall|j: int| 0 <= j < at - 1 implies (#[trigger] rest[j]).entity.name != name by {
            assert(rest[j] == records[j + 1]);
        }
        lemma_first_named(rest, name, at - 1);
    }
}

/// An entry that no record names is not found, whatever the records are
/// read from.
pub proof fn lemma_absent_name_is_not_found(records: Seq<RecordView>, name: Seq<char>)
    requires
        forall|j: int| 0 <= j < records.len() ==> (#[trigger] records[j]).entity.name != name,
    ensures
        first_named(records, name) is None,
{
    lemma_first_named(records, name, records.len() as int);
}

/// Finds the first record with this exact name.
pub fn find_record(records: &Vec<EntryRecord>, name: &str) -> (r: Option<usize>)
    ensures
        match r {
            Some(at) => at < records@.len() && first_named(record_views(records@), name@) == Some(
                records@[at as int]@,
            ),
            None => first_named(record_views(records@), name@) is None,
        },
{
    let ghost views = record_views(records@);
    let mut i: usize = 0;
    while i < records.len()
        invariant
            i <= records@.len(),
            views == record_views(records@),
            forall|j: int| 0 <= j < i ==> (#[trigger] views[j]).entity.name != name@,
        decreases records@.len() - i,
    {
        assert(views[i as int] == records@[i as int]@);
        if str_equal(records[i].entity.name(), name) {
            proof {
                lemma_first_named(views, name@, i as int);
            }
            return Some(i);
        }
        i += 1;
    }
    proof {
        lemma_first_named(views, name@, records@.len() as int);
    }
    None
}

/// Reads the content of the first entry with this exact name. Where no
/// record has the name, the entry is not found and nothing is read.
pub fn open_with<R: EntryReader>(reader: &mut R, records: &Vec<EntryRecord>, path: &str) -> (r:
    Result<Vec<u8>, ArchiveError>)
    ensures
        forall|i: usize| #[trigger] final(reader).content(i) == old(reader).content(i),
        match first_named(record_views(records@), path@) {
            None => r matches Err(ArchiveError::EntryNotFound(p)) && p@ == path@,
            Some(record) => match old(reader).content(record.index) {
                Ok(content) => r matches Ok(out) && out@ == content,
                Err(kind) => r matches Err(e) && e.fault() == kind,
            },
        },
{
    match find_record(records, path) {
        Some(at) => reader.read(records[at].index),
        None => Err(ArchiveError::EntryNotFound(path.to_owned())),
    }
}

} // verus!
