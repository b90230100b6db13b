use hotreload::change_set::{merge_modified, ChangeSet, EventKind, WatchEvent};
use hotreload::path::WatchPath;

fn event(kind: EventKind, paths: &[&str]) -> WatchEvent {
    WatchEvent { kind, paths: paths.iter().map(|path| String::from(*path)).collect() }
}

fn path(text: &str) -> WatchPath {
    WatchPath::parse(text)
}

#[test]
fn new_set_is_empty() {
    let set = ChangeSet::new();
    assert!(set.is_empty());
    assert_eq!(set.len(), 0);
    assert!(!set.contains(&path("a")));
    assert!(!set.touches(&path("a")));
}

#[test]
fn insert_adds_a_path_once() {
    let mut set = ChangeSet::new();
    assert!(set.insert(path("/r/a")));
    assert!(!set.insert(path("/r/a")));
    assert!(!set.insert(path("/r//a/")));
    assert!(set.insert(path("/r/b")));
    assert_eq!(set.len(), 2);
    assert!(!set.is_empty());
    assert!(set.contains(&path("/r/a")));
    assert!(set.contains(&path("/r/b")));
    assert!(!set.contains(&path("r/a")));
    assert!(!set.contains(&path("/r/c")));
}

#[test]
fn path_gives_the_paths_in_insertion_order() {
    let mut set = ChangeSet::new();
    set.insert(path("/r/b"));
    set.insert(path("/r/a"));
    set.insert(path("/r/b"));
    assert_eq!(set.len(), 2);
    assert!(set.path(0).unwrap().same_as(&path("/r/b")));
    assert!(set.path(1).unwrap().same_as(&path("/r/a")));
    assert!(set.path(2).is_none());
    assert!(ChangeSet::new().path(0).is_none());
}

#[test]
fn touches_looks_for_a_path_with_that_suffix() {
    let mut set = ChangeSet::new();
    set.insert(path("/r/assets/readme.txt"));
    set.insert(path("/r/assets/shaders/quad.vert"));
    assert!(set.touches(&path("assets/shaders/quad.vert")));
    assert!(set.touches(&path("readme.txt")));
    assert!(!set.touches(&path("assets/shaders/grass.vert")));
    assert!(!set.touches(&path("shaders")));
}

#[test]
fn merge_of_no_events_is_none() {
    assert!(merge_modified(&Vec::new()).is_none());
}

#[test]
fn merge_without_modify_event_is_none() {
    let events = vec![
        event(EventKind::Created, &["/r/a"]),
        event(EventKind::Removed, &["/r/b"]),
        event(EventKind::Metadata, &["/r/c"]),
        event(EventKind::Other, &["/r/d"]),
    ];
    assert!(merge_modified(&events).is_none());
}

#[test]
fn merge_collects_the_paths_of_modify_events_only() {
    let events = vec![
        event(EventKind::Created, &["/r/new"]),
        event(EventKind::Modified, &["/r/a", "/r/b"]),
        event(EventKind::Removed, &["/r/gone"]),
        event(EventKind::Modified, &["/r/c"]),
        event(EventKind::Metadata, &["/r/touched"]),
    ];
    let changes = merge_modified(&events).expect("two events modify");
    assert_eq!(changes.len(), 3);
    assert!(changes.contains(&path("/r/a")));
    assert!(changes.contains(&path("/r/b")));
    assert!(changes.contains(&path("/r/c")));
    assert!(!changes.contains(&path("/r/new")));
    assert!(!changes.contains(&path("/r/gone")));
    assert!(!changes.contains(&path("/r/touched")));
}

#[test]
fn merge_holds_a_repeated_path_once() {
    let events = vec![
        event(EventKind::Modified, &["/r/a"]),
        event(EventKind::Modified, &["/r/a", "/r/a"]),
        event(EventKind::Modified, &["/r/./a"]),
    ];
    let changes = merge_modified(&events).expect("the events modify");
    assert_eq!(changes.len(), 1);
    assert!(changes.contains(&path("/r/a")));
}

#[test]
fn merge_of_a_modify_event_without_paths_is_the_empty_set() {
    let events = vec![event(EventKind::Created, &["/r/a"]), event(EventKind::Modified, &[])];
    let changes = merge_modified(&events).expect("an event modifies");
    assert!(changes.is_empty());
}

#[test]
fn merge_of_a_repeated_event_is_the_merge_without_it() {
    let once = vec![event(EventKind::Modified, &["/r/a", "/r/b"]), event(EventKind::Created, &["/r/c"])];
    let twice = vec![
        event(EventKind::Modified, &["/r/a", "/r/b"]),
        event(EventKind::Created, &["/r/c"]),
        event(EventKind::Modified, &["/r/a", "/r/b"]),
    ];
    let first = merge_modified(&once).unwrap();
    let second = merge_modified(&twice).unwrap();
    assert_eq!(first.len(), second.len());
    for index in 0..first.len() {
        assert!(second.contains(first.path(index).unwrap()));
    }
}
