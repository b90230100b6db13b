use crossbeam_channel::{unbounded, Receiver, Sender};
use hotreload::change_set::ChangeSet;
use hotreload::change_set::WatchEvent;
use hotreload::file_watcher::{
    drain_events, settle, take_look, DrainEnd, FileWatcher, Look, WatchError,
};
use hotreload::path::WatchPath;
use notify::event::{AccessKind, CreateKind, DataChange, MetadataKind, ModifyKind, RemoveKind};
use notify::{Event, EventKind};
use std::path::PathBuf;

type Message = Result<Event, notify::Error>;

fn channel() -> (Sender<Message>, Receiver<Message>) {
    unbounded()
}

fn event(kind: EventKind, paths: &[&str]) -> Message {
    let mut event = Event::new(kind);
    for path in paths {
        event = event.add_path(PathBuf::from(path));
    }
    Ok(event)
}

fn idle_watcher() -> notify::RecommendedWatcher {
    notify::Watcher::new_immediate(|_outcome: Message| {}).expect("a watcher without watches")
}

fn holds(set: &ChangeSet, path: &str) -> bool {
    set.contains(&WatchPath::parse(path))
}

#[test]
fn draining_an_empty_queue_reports_no_changes() {
    let (sender, receiver) = channel();
    let files = FileWatcher::new(idle_watcher(), receiver, PathBuf::from("/r"));
    assert!(matches!(files.collect_modified(), Ok(None)));
    assert!(matches!(files.collect_modified(), Ok(None)));
    drop(sender);
}

#[test]
fn modify_events_are_merged_into_one_set() {
    let (sender, receiver) = channel();
    sender.send(event(EventKind::Modify(ModifyKind::Data(DataChange::Content)), &["/r/assets/shaders/quad.vert"])).unwrap();
    sender.send(event(EventKind::Modify(ModifyKind::Any), &["/r/assets/shaders/grass.vert", "/r/assets/a.txt"])).unwrap();
    let files = FileWatcher::new(idle_watcher(), receiver, PathBuf::from("/r"));
    let changes = files.collect_modified().unwrap().expect("two modifying events were queued");
    assert_eq!(changes.len(), 3);
    assert!(holds(&changes, "/r/assets/shaders/quad.vert"));
    assert!(holds(&changes, "/r/assets/shaders/grass.vert"));
    assert!(holds(&changes, "/r/assets/a.txt"));
    assert!(matches!(files.collect_modified(), Ok(None)));
    drop(sender);
}

#[test]
fn events_that_do_not_modify_content_are_ignored() {
    let (sender, receiver) = channel();
    sender.send(event(EventKind::Create(CreateKind::File), &["/r/assets/new.vert"])).unwrap();
    sender.send(event(EventKind::Remove(RemoveKind::File), &["/r/assets/old.vert"])).unwrap();
    sender.send(event(EventKind::Access(AccessKind::Read), &["/r/assets/shaders/quad.vert"])).unwrap();
    sender.send(event(EventKind::Modify(ModifyKind::Metadata(MetadataKind::Permissions)), &["/r/assets/shaders/quad.vert"])).unwrap();
    sender.send(event(EventKind::Any, &["/r/assets/shaders/quad.vert"])).unwrap();
    sender.send(event(EventKind::Other, &[])).unwrap();
    let files = FileWatcher::new(idle_watcher(), receiver, PathBuf::from("/r"));
    assert!(matches!(files.collect_modified(), Ok(None)));
    drop(sender);
}

#[test]
fn double_write_to_one_file_yields_one_path() {
    let (sender, receiver) = channel();
    sender.send(event(EventKind::Modify(ModifyKind::Data(DataChange::Any)), &["/r/assets/shaders/quad.vert"])).unwrap();
    sender.send(event(EventKind::Modify(ModifyKind::Data(DataChange::Any)), &["/r/assets/shaders/quad.vert"])).unwrap();
    let changes = drain_and_merge(&receiver);
    assert_eq!(changes.len(), 1);
    assert!(holds(&changes, "/r/assets/shaders/quad.vert"));
    drop(sender);
}

fn drain_and_merge(receiver: &Receiver<Message>) -> ChangeSet {
    let (events, end) = drain_events(receiver);
    assert_eq!(end, DrainEnd::Quiet);
    settle(&events, end).unwrap().expect("a modifying event was queued")
}

#[test]
fn modify_event_without_paths_gives_the_empty_set() {
    let (sender, receiver) = channel();
    sender.send(event(EventKind::Modify(ModifyKind::Any), &[])).unwrap();
    let files = FileWatcher::new(idle_watcher(), receiver, PathBuf::from("/r"));
    let changes = files.collect_modified().unwrap().expect("a modifying event was queued");
    assert!(changes.is_empty());
    assert_eq!(changes.len(), 0);
    drop(sender);
}

fn modified(paths: &[&str]) -> WatchEvent {
    WatchEvent {
        kind: hotreload::change_set::EventKind::Modified,
        paths: paths.iter().map(|path| String::from(*path)).collect(),
    }
}

#[test]
fn severed_channel_is_reported() {
    let (sender, receiver) = channel();
    drop(sender);
    assert_eq!(drain_events(&receiver), (Vec::new(), DrainEnd::Disconnected));
    let files = FileWatcher::new(idle_watcher(), receiver, PathBuf::from("/r"));
    assert!(matches!(files.collect_modified(), Err(WatchError::Disconnected)));
}

#[test]
fn queued_events_are_taken_before_a_severed_channel_is_reported() {
    let (sender, receiver) = channel();
    sender.send(event(EventKind::Modify(ModifyKind::Any), &["/r/assets/x"])).unwrap();
    drop(sender);
    assert_eq!(drain_events(&receiver), (vec![modified(&["/r/assets/x"])], DrainEnd::Disconnected));
}

#[test]
fn severed_channel_is_an_error_whatever_was_queued() {
    let (sender, receiver) = channel();
    sender.send(event(EventKind::Modify(ModifyKind::Any), &["/r/assets/x"])).unwrap();
    drop(sender);
    let files = FileWatcher::new(idle_watcher(), receiver, PathBuf::from("/r"));
    assert!(matches!(files.collect_modified(), Err(WatchError::Disconnected)));
}

#[test]
fn listener_error_is_reported_with_its_text() {
    let (sender, receiver) = channel();
    sender.send(Err(notify::Error::generic("backend broke"))).unwrap();
    assert_eq!(drain_events(&receiver), (Vec::new(), DrainEnd::Failed(String::from("backend broke"))));
    sender.send(Err(notify::Error::generic("backend broke again"))).unwrap();
    let files = FileWatcher::new(idle_watcher(), receiver, PathBuf::from("/r"));
    match files.collect_modified() {
        Err(error) => assert_eq!(error, WatchError::Backend(String::from("backend broke again"))),
        Ok(_) => panic!("the listener's error was lost"),
    }
    drop(sender);
}

#[test]
fn settle_merges_a_quiet_drain() {
    let events = vec![modified(&["/r/a", "/r/b"]), modified(&["/r/a"])];
    let changes = settle(&events, DrainEnd::Quiet).unwrap().expect("the events modify");
    assert_eq!(changes.len(), 2);
    assert!(holds(&changes, "/r/a"));
    assert!(holds(&changes, "/r/b"));
    assert!(matches!(settle(&Vec::new(), DrainEnd::Quiet), Ok(None)));
}

#[test]
fn settle_reports_the_end_of_a_broken_drain() {
    let events = vec![modified(&["/r/a"])];
    match settle(&events, DrainEnd::Disconnected) {
        Err(error) => assert_eq!(error, WatchError::Disconnected),
        Ok(_) => panic!("a severed channel was taken for a quiet one"),
    }
    match settle(&events, DrainEnd::Failed(String::from("no watch left"))) {
        Err(error) => assert_eq!(error, WatchError::Backend(String::from("no watch left"))),
        Ok(_) => panic!("the listener's error was lost"),
    }
}

#[test]
fn drained_events_keep_their_order_kind_and_paths() {
    let (sender, receiver) = channel();
    sender.send(event(EventKind::Create(CreateKind::Any), &["/r/a"])).unwrap();
    sender.send(event(EventKind::Modify(ModifyKind::Any), &["/r/b", "/r/c"])).unwrap();
    let (events, end) = drain_events(&receiver);
    assert_eq!(end, DrainEnd::Quiet);
    assert_eq!(events.len(), 2);
    assert_eq!(events[0].kind, hotreload::change_set::EventKind::Created);
    assert_eq!(events[0].paths, vec![String::from("/r/a")]);
    assert_eq!(events[1].kind, hotreload::change_set::EventKind::Modified);
    assert_eq!(events[1].paths, vec![String::from("/r/b"), String::from("/r/c")]);
    drop(sender);
}

#[test]
fn look_that_found_an_event_appends_it_and_goes_on() {
    let mut events = vec![modified(&["/r/a"])];
    assert_eq!(take_look(&mut events, Look::Event(modified(&["/r/b", "/r/c"]))), None);
    assert_eq!(events, vec![modified(&["/r/a"]), modified(&["/r/b", "/r/c"])]);
}

#[test]
fn look_that_found_no_event_ends_the_drain_and_keeps_the_events() {
    let mut events = vec![modified(&["/r/a"])];
    assert_eq!(take_look(&mut events, Look::Empty), Some(DrainEnd::Quiet));
    assert_eq!(take_look(&mut events, Look::Disconnected), Some(DrainEnd::Disconnected));
    assert_eq!(
        take_look(&mut events, Look::Failed(String::from("no watch left"))),
        Some(DrainEnd::Failed(String::from("no watch left")))
    );
    assert_eq!(events, vec![modified(&["/r/a"])]);
    let mut none: Vec<WatchEvent> = Vec::new();
    assert_eq!(take_look(&mut none, Look::Empty), Some(DrainEnd::Quiet));
    assert!(none.is_empty());
}
