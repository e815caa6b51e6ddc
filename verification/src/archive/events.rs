//! What an operation reports while it runs.
use vstd::prelude::*;
use crate::archive::archive_base::{ArchiveError, ArchiveFileEntityType, Fault, SkipReason};

verus! {

/// One report of an operation: the first text is the name or path of the
/// entry that the report is about.
#[derive(Debug)]
pub enum ArchiveEvent {
    /// An entry is being unpacked; its size, where it is known.
    Extracting(String, Option<u64>),
    /// The whole source, named first, was unpacked to the destination.
    DoneExtracting(String, String),
    /// An entry could not be read; the traversal goes on.
    FailedToReadEntry(String, ArchiveError),
    /// Something was created on the way.
    Created(String, ArchiveFileEntityType),
    /// An entry was passed over.
    Skipped(String, SkipReason),
    /// Free text.
    Log(String),
}

/// The mathematical value of an [`ArchiveEvent`]; of an error its kind is
/// kept.
pub enum EventView {
    Extracting(Seq<char>, Option<u64>),
    DoneExtracting(Seq<char>, Seq<char>),
    FailedToReadEntry(Seq<char>, Fault),
    Created(Seq<char>, ArchiveFileEntityType),
    Skipped(Seq<char>, SkipReason),
    Log(Seq<char>),
}

impl View for ArchiveEvent {
    type V = EventView;

    open spec fn view(&self) -> EventView {
        match self {
            ArchiveEvent::Extracting(name, size) => EventView::Extracting(name@, *size),
            ArchiveEvent::DoneExtracting(name, to) => EventView::DoneExtracting(name@, to@),
            ArchiveEvent::FailedToReadEntry(name, e) => EventView::FailedToReadEntry(name@, e.fault()),
            ArchiveEvent::Created(name, kind) => EventView::Created(name@, *kind),
            ArchiveEvent::Skipped(name, reason) => EventView::Skipped(name@, *reason),
            ArchiveEvent::Log(text) => EventView::Log(text@),
        }
    }
}

/// The views of a sequence of events, in order.
pub open spec fn event_views(events: Seq<ArchiveEvent>) -> Seq<EventView> {
    events.map_values(|e: ArchiveEvent| e@)
}

/// Appends an event to a log.
pub fn emit(events: &mut Vec<ArchiveEvent>, event: ArchiveEvent)
    ensures
        final(events)@ == old(events)@.push(event),
        event_views(final(events)@) == event_views(old(events)@).push(event@),
{
    events.push(event);
    assert(event_views(events@) =~= event_views(old(events)@).push(event@));
}

} // verus!
