//! The file watcher's queue, drained once per frame.
//!
//! A background listener of the `notify` crate sends what it observes into a
//! channel of the `crossbeam_channel` crate. [`FileWatcher::collect_modified`]
//! takes what is queued, without waiting, and folds it into a change set:
//! [`drain_events`] empties the queue, look by look, [`take_look`] says what
//! each look adds, and [`settle`] says what the drained events come to.

use crate::change_set::{
    changes_view, event_views, merge_modified, merged, ChangeSet, EventKind, EventView, WatchEvent,
};
use crate::path::PathView;
use vstd::prelude::*;

verus! {

/// The receiving end of a channel of the `crossbeam_channel` crate. Nothing
/// is known of what it holds.
#[verifier::external_type_specification]
#[verifier::external_body]
#[verifier::reject_recursive_types(T)]
pub struct ExReceiver<T>(crossbeam_channel::Receiver<T>);

/// An event of the `notify` crate. Nothing is known of what it holds.
#[verifier::external_type_specification]
#[verifier::external_body]
pub struct ExEvent(notify::Event);

/// An error of the `notify` crate. Nothing is known of what it holds.
#[verifier::external_type_specification]
#[verifier::external_body]
pub struct ExError(notify::Error);

/// The watcher of the `notify` crate that the platform recommends. It is
/// held only to keep the listener alive.
#[verifier::external_type_specification]
#[verifier::external_body]
pub struct ExRecommendedWatcher(notify::RecommendedWatcher);

/// A path of the standard library. It is only carried along.
#[verifier::external_type_specification]
#[verifier::external_body]
pub struct ExPathBuf(std::path::PathBuf);

/// Why the queue could not be drained.
#[derive(Clone, Debug, PartialEq, Eq)]
pub enum WatchError {
    /// The listener is gone: the channel is empty and has no sender left.
    Disconnected,
    /// The listener reported an error in place of an event.
    Backend(String),
}

/// What one look into the queue found.
enum Polled {
    /// An event.
    Event(notify::Event),
    /// An error that the listener sent in place of an event.
    Failed(notify::Error),
    /// Nothing is queued.
    Empty,
    /// Nothing is queued and no sender is left.
    Disconnected,
}

/// Calls `Receiver::len` of `crossbeam_channel`: the number of messages that
/// are queued at the moment of the call. Nothing is claimed of the number.
#[verifier::external_body]
fn queued(receiver: &crossbeam_channel::Receiver<Result<notify::Event, notify::Error>>) -> usize {
    receiver.len()
}

/// Calls `Receiver::try_recv` of `crossbeam_channel`, which never blocks, and
/// tells its four outcomes apart. Nothing is claimed of which one comes.
#[verifier::external_body]
fn poll(receiver: &crossbeam_channel::Receiver<Result<notify::Event, notify::Error>>) -> Polled {
    match receiver.try_recv() {
        Ok(Ok(event)) => Polled::Event(event),
        Ok(Err(error)) => Polled::Failed(error),
        Err(crossbeam_channel::TryRecvError::Empty) => Polled::Empty,
        Err(crossbeam_channel::TryRecvError::Disconnected) => Polled::Disconnected,
    }
}

/// Reads the public fields `kind` and `paths` of a `notify::Event`. A
/// `Modify` event that concerns metadata only becomes
/// [`EventKind::Metadata`], any other `Modify` event
/// [`EventKind::Modified`]; each path is spelled as text, lossily where it is
/// not valid Unicode. Nothing is claimed of the result.
#[verifier::external_body]
fn describe(event: notify::Event) -> WatchEvent {
    let kind = match event.kind {
        notify::EventKind::Create(_) => EventKind::Created,
        notify::EventKind::Modify(notify::event::ModifyKind::Metadata(_)) => EventKind::Metadata,
        notify::EventKind::Modify(_) => EventKind::Modified,
        notify::EventKind::Remove(_) => EventKind::Removed,
        _ => EventKind::Other,
    };
    let paths = event.paths.iter().map(|path| path.to_string_lossy().into_owned()).collect();
    WatchEvent { kind, paths }
}

/// Formats a `notify::Error` with its `Display` impl. Nothing is claimed of
/// the text.
#[verifier::external_body]
fn error_text(error: &notify::Error) -> String {
    format!("{}", error)
}

/// How a drain ended.
#[derive(Debug, PartialEq, Eq)]
pub enum DrainEnd {
    /// Nothing more was queued.
    Quiet,
    /// The listener had sent an error in place of an event; this is its text.
    Failed(String),
    /// The listener is gone: the channel was empty and had no sender left.
    Disconnected,
}

/// Takes the events that are queued in `receiver`, oldest first, without
/// waiting, and tells how the drain ended.
///
/// The queue is looked into once more than it held messages when the call
/// began, so that a listener that is gone is noticed even when nothing is
/// queued. An error that the listener sent, or a channel without sender, ends
/// the drain at once.
pub fn drain_events(
    receiver: &crossbeam_channel::Receiver<Result<notify::Event, notify::Error>>,
) -> (drained: (Vec<WatchEvent>, DrainEnd)) {
    let mut events: Vec<WatchEvent> = Vec::new();
    let mut remaining: usize = queued(receiver);
    loop
        decreases remaining,
    {
        let look = match poll(receiver) {
            Polled::Event(event) => Look::Event(describe(event)),
            Polled::Failed(error) => Look::Failed(error_text(&error)),
            Polled::Empty => Look::Empty,
            Polled::Disconnected => Look::Disconnected,
        };
        match take_look(&mut events, look) {
            Some(end) => {
                return (events, end);
            },
            None => {},
        }
        if remaining == 0 {
            return (events, DrainEnd::Quiet);
        }
        remaining -= 1;
    }
}

/// What one look into the queue found, in this crate's terms.
#[derive(Debug, PartialEq, Eq)]
pub enum Look {
    /// An event.
    Event(WatchEvent),
    /// An error that the listener sent in place of an event; this is its
    /// text.
    Failed(String),
    /// Nothing is queued.
    Empty,
    /// Nothing is queued and no sender is left.
    Disconnected,
}

/// What a drain that has taken `events` makes of one more look: the events
/// that it has taken then, and how it ends, if it ends.
///
/// An event is taken and the drain goes on. Anything else ends the drain and
/// leaves the events as they are: an empty queue ends it quietly, an error of
/// the listener or a channel without sender ends it with that.
pub open spec fn looked(events: Seq<WatchEvent>, look: Look) -> (
    Seq<WatchEvent>,
    Option<DrainEnd>,
) {
    match look {
        Look::Event(event) => (events.push(event), None),
        Look::Failed(message) => (events, Some(DrainEnd::Failed(message))),
        Look::Empty => (events, Some(DrainEnd::Quiet)),
        Look::Disconnected => (events, Some(DrainEnd::Disconnected)),
    }
}

/// Takes one look into account: appends the event that was found, or tells
/// how the drain ends.
pub fn take_look(events: &mut Vec<WatchEvent>, look: Look) -> (end: Option<DrainEnd>)
    ensures
        (final(events)@, end) == looked(old(events)@, look),
{
    match look {
        Look::Event(event) => {
            events.push(event);
            None
        },
        Look::Failed(message) => Some(DrainEnd::Failed(message)),
        Look::Empty => Some(DrainEnd::Quiet),
        Look::Disconnected => Some(DrainEnd::Disconnected),
    }
}

/// What a poll reports: the set that stands for the change set, or the error.
pub open spec fn report_view(report: Result<Option<ChangeSet>, WatchError>) -> Result<
    Option<Set<PathView>>,
    WatchError,
> {
    match report {
        Ok(changes) => Ok(changes_view(changes)),
        Err(error) => Err(error),
    }
}

/// What a drain that took `events` and ended with `end` comes to.
///
/// A drain that ended quietly reports the merge of its events. A listener
/// that failed or is gone is an error, whatever was taken before.
pub open spec fn settled(events: Seq<EventView>, end: DrainEnd) -> Result<
    Option<Set<PathView>>,
    WatchError,
> {
    match end {
        DrainEnd::Quiet => Ok(merged(events)),
        DrainEnd::Failed(message) => Err(WatchError::Backend(message)),
        DrainEnd::Disconnected => Err(WatchError::Disconnected),
    }
}

/// Settles a drain: merges the events that were taken, unless the listener
/// failed or is gone.
pub fn settle(events: &Vec<WatchEvent>, end: DrainEnd) -> (report: Result<
    Option<ChangeSet>,
    WatchError,
>)
    ensures
        report_view(report) == settled(event_views(events@), end),
{
    match end {
        DrainEnd::Quiet => Ok(merge_modified(events)),
        DrainEnd::Failed(message) => Err(WatchError::Backend(message)),
        DrainEnd::Disconnected => Err(WatchError::Disconnected),
    }
}

/// Whether `report` is what some drain comes to.
pub open spec fn is_settled(report: Result<Option<ChangeSet>, WatchError>) -> bool {
    exists|events: Seq<EventView>, end: DrainEnd|
        report_view(report) == #[trigger] settled(events, end)
}

/// The file watcher: the listener, the channel that it sends into, and the
/// directory whose `assets` subtree it watches.
pub struct FileWatcher {
    /// The listener.
    pub watcher: notify::RecommendedWatcher,
    /// The receiving end of the listener's channel.
    pub receiver: crossbeam_channel::Receiver<Result<notify::Event, notify::Error>>,
    /// The directory that was resolved at startup.
    pub root: std::path::PathBuf,
}

impl FileWatcher {
    /// Puts a running listener together with the channel that it sends into.
    pub fn new(
        watcher: notify::RecommendedWatcher,
        receiver: crossbeam_channel::Receiver<Result<notify::Event, notify::Error>>,
        root: std::path::PathBuf,
    ) -> (files: FileWatcher)
        ensures
            files.watcher == watcher,
            files.receiver == receiver,
            files.root == root,
    {
        FileWatcher { watcher, receiver, root }
    }

    /// Takes what is queued, without waiting, and merges the paths of the
    /// modifying events into one set.
    ///
    /// `Ok(None)` says that no modifying event was queued. A listener that
    /// failed or is gone is an error. What is queued is not known before the
    /// call: whatever it was, the report is what the drain comes to.
    pub fn collect_modified(&self) -> (report: Result<Option<ChangeSet>, WatchError>)
        ensures
            is_settled(report),
    {
        let (events, end) = drain_events(&self.receiver);
        settle(&events, end)
    }
}

/// A poll that finds nothing modified reports no changes: a drain that ended
/// quietly and took no modifying event, or no event at all, comes to
/// `Ok(None)`.
pub proof fn lemma_idle_poll_reports_no_changes(events: Seq<EventView>)
    requires
        forall|i: int| 0 <= i < events.len() ==> (#[trigger] events[i]).kind != EventKind::Modified,
    ensures
        settled(events, DrainEnd::Quiet) == Ok::<Option<Set<PathView>>, WatchError>(None),
        settled(Seq::<EventView>::empty(), DrainEnd::Quiet) == Ok::<
            Option<Set<PathView>>,
            WatchError,
        >(None),
{
    crate::change_set::lemma_quiet_poll_reports_nothing(events);
    crate::change_set::lemma_quiet_poll_reports_nothing(Seq::<EventView>::empty());
}

/// A listener that is gone is never taken for a quiet one: whatever events
/// were taken, a drain that ended without sender comes to the error.
pub proof fn lemma_severed_channel_is_an_error(events: Seq<EventView>)
    ensures
        settled(events, DrainEnd::Disconnected) == Err::<Option<Set<PathView>>, WatchError>(
            WatchError::Disconnected,
        ),
{
}

} // verus!
