//! The event classifier: what a notification asks the watcher to do.

use crate::event::{announces_directory, announces_file, RawEvent, WatchHandle};
use crate::ignore::{ignored_names, name_is_ignored, IgnoreMatcher};
use crate::queue::TransferQueue;
use crate::registry::{resolved, UnknownWatchError, WatchRegistry};
use crate::text::{lemma_texts_push, texts};
use vstd::prelude::*;

verus! {

/// What a record holds, as plain values.
pub ghost struct EventRecord {
    pub wd: WatchHandle,
    pub mask: u32,
    pub name: Seq<char>,
}

impl View for RawEvent {
    type V = EventRecord;

    open spec fn view(&self) -> EventRecord {
        EventRecord { wd: self.wd, mask: self.mask, name: self.name@ }
    }
}

/// The records of a batch, as plain values.
pub open spec fn records(events: Seq<RawEvent>) -> Seq<EventRecord> {
    Seq::new(events.len(), |i: int| events[i]@)
}

/// What a notification asks for.
#[derive(Clone, Debug, PartialEq, Eq)]
pub enum ClassifiedOutcome {
    /// A directory appeared at this path: it has to be put under watch.
    NewDirectory(String),
    /// The file at this path is complete: it has to be transferred.
    PendingTransfer(String),
}

/// A [`ClassifiedOutcome`] as plain values.
pub ghost enum Classification {
    NewDirectory(Seq<char>),
    PendingTransfer(Seq<char>),
}

impl View for ClassifiedOutcome {
    type V = Classification;

    open spec fn view(&self) -> Classification {
        match self {
            ClassifiedOutcome::NewDirectory(path) => Classification::NewDirectory(path@),
            ClassifiedOutcome::PendingTransfer(path) => Classification::PendingTransfer(path@),
        }
    }
}

/// The result of a classification as plain values.
pub open spec fn classified_view(
    result: Result<Option<ClassifiedOutcome>, UnknownWatchError>,
) -> Result<Option<Classification>, UnknownWatchError> {
    match result {
        Ok(Some(outcome)) => Ok(Some(outcome@)),
        Ok(None) => Ok(None),
        Err(error) => Err(error),
    }
}

/// What the record `event` asks for, given the directories under watch and
/// the names that are suppressed.
///
/// The directory of the record is looked up first: a handle that is not
/// known is an error. A suppressed name asks for nothing. A directory that
/// was created or moved in is a new directory, a file that was closed after
/// writing or moved in is a pending transfer, and everything else asks for
/// nothing. The path is the directory of the watch, a slash, and the name.
pub open spec fn classification(
    event: EventRecord,
    registry: Map<WatchHandle, Seq<char>>,
    ignored: Set<Seq<char>>,
) -> Result<Option<Classification>, UnknownWatchError> {
    match resolved(registry, event.wd, event.name) {
        Err(error) => Err(error),
        Ok(path) => if ignored.contains(event.name) {
            Ok(None)
        } else if announces_directory(event.mask) {
            Ok(Some(Classification::NewDirectory(path)))
        } else if announces_file(event.mask) {
            Ok(Some(Classification::PendingTransfer(path)))
        } else {
            Ok(None)
        },
    }
}

/// Classifies one record.
pub fn classify(event: &RawEvent, registry: &WatchRegistry, ignore: &Option<IgnoreMatcher>) -> (result:
    Result<Option<ClassifiedOutcome>, UnknownWatchError>)
    ensures
        classified_view(result) == classification(event@, registry@, ignored_names(*ignore)),
{
    let path = match registry.resolve(event.wd, event.name.as_str()) {
        Ok(path) => path,
        Err(error) => {
            return Err(error);
        },
    };
    if name_is_ignored(ignore, event.name.as_str()) {
        Ok(None)
    } else if event.is_dir() {
        if event.is_create() || event.is_moved_to() {
            Ok(Some(ClassifiedOutcome::NewDirectory(path)))
        } else {
            Ok(None)
        }
    } else if event.is_close_write() || event.is_moved_to() {
        Ok(Some(ClassifiedOutcome::PendingTransfer(path)))
    } else {
        Ok(None)
    }
}

/// The first record of a batch whose handle is not known, as the error
/// that it gives.
pub open spec fn batch_fault(
    events: Seq<EventRecord>,
    registry: Map<WatchHandle, Seq<char>>,
) -> Option<UnknownWatchError>
    decreases events.len(),
{
    if events.len() == 0 {
        None
    } else {
        match batch_fault(events.drop_last(), registry) {
            Some(error) => Some(error),
            None => if registry.contains_key(events.last().wd) {
                None
            } else {
                Some(UnknownWatchError { handle: events.last().wd })
            },
        }
    }
}

/// The paths of the records of a batch that are pending transfers, in the
/// order of the records.
pub open spec fn batch_transfers(
    events: Seq<EventRecord>,
    registry: Map<WatchHandle, Seq<char>>,
    ignored: Set<Seq<char>>,
) -> Seq<Seq<char>>
    decreases events.len(),
{
    if events.len() == 0 {
        Seq::empty()
    } else {
        let before = batch_transfers(events.drop_last(), registry, ignored);
        match classification(events.last(), registry, ignored) {
            Ok(Some(Classification::PendingTransfer(path))) => before.push(path),
            _ => before,
        }
    }
}

/// The paths of the records of a batch that are new directories, in the
/// order of the records.
pub open spec fn batch_directories(
    events: Seq<EventRecord>,
    registry: Map<WatchHandle, Seq<char>>,
    ignored: Set<Seq<char>>,
) -> Seq<Seq<char>>
    decreases events.len(),
{
    if events.len() == 0 {
        Seq::empty()
    } else {
        let before = batch_directories(events.drop_last(), registry, ignored);
        match classification(events.last(), registry, ignored) {
            Ok(Some(Classification::NewDirectory(path))) => before.push(path),
            _ => before,
        }
    }
}

/// Classifies a batch of records. The pending transfers are queued, in the
/// order of the records, and the new directories are returned, in that
/// order too. If a record names a handle that is not known, the first such
/// record is the error, and nothing is queued.
pub fn classify_batch(
    events: &Vec<RawEvent>,
    registry: &WatchRegistry,
    ignore: &Option<IgnoreMatcher>,
    queue: &mut TransferQueue,
) -> (found: Result<Vec<String>, UnknownWatchError>)
    ensures
        match batch_fault(records(events@), registry@) {
            Some(error) => {
                &&& found == Err::<Vec<String>, UnknownWatchError>(error)
                &&& final(queue)@ == old(queue)@
            },
            None => {
                &&& found matches Ok(directories)
                &&& texts(directories@) == batch_directories(
                    records(events@),
                    registry@,
                    ignored_names(*ignore),
                )
                &&& final(queue)@ == old(queue)@ + batch_transfers(
                    records(events@),
                    registry@,
                    ignored_names(*ignore),
                )
            },
        },
{
    let ghost all = records(events@);
    let ghost ignored = ignored_names(*ignore);
    let mut directories: Vec<String> = Vec::new();
    let mut transfers: Vec<String> = Vec::new();
    let mut i: usize = 0;
    while i < events.len()
        invariant
            i <= events.len(),
            all == records(events@),
            ignored == ignored_names(*ignore),
            batch_fault(all.take(i as int), registry@) is None,
            texts(directories@) == batch_directories(all.take(i as int), registry@, ignored),
            texts(transfers@) == batch_transfers(all.take(i as int), registry@, ignored),
            *queue == *old(queue),
        decreases events.len() - i,
    {
        proof {
            let next = all.take(i + 1);
            assert(next.drop_last() =~= all.take(i as int));
        }
        match classify(&events[i], registry, ignore) {
            Err(error) => {
                proof {
                    lemma_fault_stays(all.take(i + 1), all, registry@);
                }
                return Err(error);
            },
            Ok(Some(ClassifiedOutcome::NewDirectory(path))) => {
                proof {
                    lemma_texts_push(directories@, path);
                }
                directories.push(path);
            },
            Ok(Some(ClassifiedOutcome::PendingTransfer(path))) => {
                proof {
                    lemma_texts_push(transfers@, path);
                }
                transfers.push(path);
            },
            Ok(None) => {},
        }
        i = i + 1;
    }
    proof {
        assert(all.take(i as int) =~= all);
    }
    queue.extend(transfers);
    Ok(directories)
}

/// A fault in the first records of a batch is the fault of the batch.
proof fn lemma_fault_stays(
    head: Seq<EventRecord>,
    events: Seq<EventRecord>,
    registry: Map<WatchHandle, Seq<char>>,
)
    requires
        head.len() <= events.len(),
        head == events.take(head.len() as int),
        batch_fault(head, registry) is Some,
    ensures
        batch_fault(events, registry) == batch_fault(head, registry),
    decreases events.len(),
{
    if head.len() < events.len() {
        assert(events.drop_last().take(head.len() as int) =~= head);
        lemma_fault_stays(head, events.drop_last(), registry);
    } else {
        assert(head =~= events);
    }
}

/// Classification is a function of the record, the registry and the
/// suppressed names: where these agree, so does the result.
pub proof fn lemma_classification_is_pure(
    first: RawEvent,
    second: RawEvent,
    registry: WatchRegistry,
    other_registry: WatchRegistry,
    ignore: Option<IgnoreMatcher>,
    other_ignore: Option<IgnoreMatcher>,
)
    requires
        first@ == second@,
        registry@ == other_registry@,
        ignored_names(ignore) == ignored_names(other_ignore),
    ensures
        classification(first@, registry@, ignored_names(ignore)) == classification(
            second@,
            other_registry@,
            ignored_names(other_ignore),
        ),
{
}

/// A record whose name is suppressed asks for nothing, whatever its flags
/// are.
pub proof fn lemma_ignored_asks_for_nothing(
    event: EventRecord,
    registry: Map<WatchHandle, Seq<char>>,
    ignored: Set<Seq<char>>,
)
    requires
        ignored.contains(event.name),
    ensures
        !(classification(event, registry, ignored) matches Ok(Some(_))),
{
}

/// A record that is classified as a new directory could not have been a
/// pending transfer, and the other way round: the flags of a record admit
/// one of the two at most.
pub proof fn lemma_outcomes_exclusive(
    event: EventRecord,
    registry: Map<WatchHandle, Seq<char>>,
    ignored: Set<Seq<char>>,
)
    ensures
        classification(event, registry, ignored) matches Ok(Some(Classification::NewDirectory(_)))
            ==> announces_directory(event.mask) && !announces_file(event.mask),
        classification(event, registry, ignored) matches Ok(
            Some(Classification::PendingTransfer(_)),
        ) ==> announces_file(event.mask) && !announces_directory(event.mask),
{
}

} // verus!
