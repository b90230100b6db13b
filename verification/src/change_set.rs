//! File events and the set of changed paths that they add up to.
//!
//! A [`ChangeSet`] holds each changed path once, however often it was
//! reported. [`merge_modified`] folds the events of one poll into a change
//! set: only events that modify a file's content count, and the result tells
//! "nothing was modified" (`None`) apart from a modification that names no
//! path (`Some` of the empty set).

use crate::path::{path_of, PathView, WatchPath};
use vstd::prelude::*;

verus! {

broadcast use vstd::seq_lib::group_seq_properties;

/// What happened to the paths of an event.
#[derive(Clone, Copy, Debug, PartialEq, Eq, Structural)]
pub enum EventKind {
    /// A file or directory was created.
    Created,
    /// The content or the name of a file changed.
    Modified,
    /// Only the attributes of a file changed (permissions, timestamps).
    Metadata,
    /// A file or directory was removed.
    Removed,
    /// Anything else, such as a file being opened or closed.
    Other,
}

/// One event of the file watcher: what happened, and to which paths.
#[derive(Debug, PartialEq, Eq)]
pub struct WatchEvent {
    /// What happened.
    pub kind: EventKind,
    /// The paths that it happened to, as the watcher spelled them.
    pub paths: Vec<String>,
}

/// What an event is to this crate: its kind and the texts of its paths.
pub struct EventView {
    /// What happened.
    pub kind: EventKind,
    /// The texts of the paths.
    pub paths: Seq<Seq<char>>,
}

impl View for WatchEvent {
    type V = EventView;

    open spec fn view(&self) -> EventView {
        EventView { kind: self.kind, paths: Seq::new(self.paths@.len(), |j: int| self.paths@[j]@) }
    }
}

/// The views of the events that a vector holds.
pub open spec fn event_views(events: Seq<WatchEvent>) -> Seq<EventView> {
    Seq::new(events.len(), |i: int| events[i]@)
}

/// The `j`-th path of the `i`-th event is a change: the event exists, it
/// modifies, and it has such a path.
pub open spec fn is_change(events: Seq<EventView>, i: int, j: int) -> bool {
    &&& 0 <= i < events.len()
    &&& events[i].kind == EventKind::Modified
    &&& 0 <= j < events[i].paths.len()
}

/// Whether any of the events modifies.
pub open spec fn has_modification(events: Seq<EventView>) -> bool {
    exists|i: int| 0 <= i < events.len() && (#[trigger] events[i]).kind == EventKind::Modified
}

/// The paths that the modifying events among `events` name.
pub open spec fn modified_paths(events: Seq<EventView>) -> Set<PathView> {
    Set::new(
        |path: PathView|
            exists|i: int, j: int| #[trigger]
                is_change(events, i, j) && path_of(events[i].paths[j]) == path,
    )
}

/// What a poll that yielded `events` reports: nothing when no event modifies,
/// else the paths that the modifying events name.
pub open spec fn merged(events: Seq<EventView>) -> Option<Set<PathView>> {
    if has_modification(events) {
        Some(modified_paths(events))
    } else {
        None
    }
}

/// The views of the paths that a vector holds.
pub open spec fn path_views(paths: Seq<WatchPath>) -> Seq<PathView> {
    Seq::new(paths.len(), |i: int| paths[i]@)
}

/// A set of changed paths.
#[derive(Debug)]
pub struct ChangeSet {
    paths: Vec<WatchPath>,
}

impl View for ChangeSet {
    type V = Set<PathView>;

    closed spec fn view(&self) -> Set<PathView> {
        path_views(self.paths@).to_set()
    }
}

/// The set that an optional change set stands for.
pub open spec fn changes_view(changes: Option<ChangeSet>) -> Option<Set<PathView>> {
    match changes {
        Some(set) => Some(set@),
        None => None,
    }
}

impl ChangeSet {
    /// No path is held twice.
    #[verifier::type_invariant]
    spec fn distinct(&self) -> bool {
        path_views(self.paths@).no_duplicates()
    }

    /// The empty set.
    pub fn new() -> (set: ChangeSet)
        ensures
            set@ == Set::<PathView>::empty(),
    {
        let set = ChangeSet { paths: Vec::new() };
        set
    }

    /// The number of paths in the set.
    pub fn len(&self) -> (count: usize)
        ensures
            self@.finite(),
            count == self@.len(),
    {
        proof {
            use_type_invariant(self);
            path_views(self.paths@).unique_seq_to_set();
        }
        self.paths.len()
    }

    /// Whether the set holds no path.
    pub fn is_empty(&self) -> (empty: bool)
        ensures
            empty == (self@ == Set::<PathView>::empty()),
    {
        let empty = self.paths.len() == 0;
        proof {
            if empty {
                assert(self@ =~= Set::<PathView>::empty());
            } else {
                assert(path_views(self.paths@)[0] == self.paths@[0]@);
                assert(self@.contains(self.paths@[0]@));
            }
        }
        empty
    }

    /// Whether the set holds `path`.
    pub fn contains(&self, path: &WatchPath) -> (found: bool)
        ensures
            found == self@.contains(path@),
    {
        let mut i: usize = 0;
        while i < self.paths.len()
            invariant
                i <= self.paths.len(),
                forall|k: int| 0 <= k < i ==> self.paths@[k]@ != path@,
            decreases self.paths.len() - i,
        {
            if self.paths[i].same_as(path) {
                assert(path_views(self.paths@)[i as int] == path@);
                return true;
            }
            i += 1;
        }
        assert forall|k: int| 0 <= k < path_views(self.paths@).len() implies path_views(
            self.paths@,
        )[k] != path@ by {
        }
        false
    }

    /// Adds `path` to the set. Returns whether the set did not hold it yet.
    pub fn insert(&mut self, path: WatchPath) -> (added: bool)
        ensures
            final(self)@ == old(self)@.insert(path@),
            added == !old(self)@.contains(path@),
    {
        if self.contains(&path) {
            false
        } else {
            let mut taken = ChangeSet::new();
            std::mem::swap(self, &mut taken);
            proof {
                use_type_invariant(&taken);
            }
            let ChangeSet { paths } = taken;
            let mut paths = paths;
            proof {
                let before = path_views(paths@);
                assert(path_views(paths@.push(path)) =~= before.push(path@));
                before.lemma_push_to_set_commute(path@);
            }
            paths.push(path);
            *self = ChangeSet { paths };
            true
        }
    }

    /// The `index`-th path of the set, in the order in which the paths were
    /// added; `None` when the set holds no more than `index` paths.
    pub fn path(&self, index: usize) -> (path: Option<&WatchPath>)
        ensures
            path is Some <==> index < self@.len(),
            path matches Some(held) ==> self@.contains(held@),
    {
        proof {
            use_type_invariant(self);
            path_views(self.paths@).unique_seq_to_set();
        }
        if index < self.paths.len() {
            assert(path_views(self.paths@)[index as int] == self.paths@[index as int]@);
            Some(&self.paths[index])
        } else {
            None
        }
    }

    /// Whether some path of the set ends with `file`.
    pub fn touches(&self, file: &WatchPath) -> (touched: bool)
        ensures
            touched == touches(self@, file@),
    {
        let mut i: usize = 0;
        while i < self.paths.len()
            invariant
                i <= self.paths.len(),
                forall|k: int| 0 <= k < i ==> !self.paths@[k]@.ends_with(file@),
            decreases self.paths.len() - i,
        {
            if self.paths[i].ends_with(file) {
                assert(path_views(self.paths@)[i as int] == self.paths@[i as int]@);
                return true;
            }
            i += 1;
        }
        assert forall|path: PathView| self@.contains(path) implies !path.ends_with(file@) by {
            let k: int = choose|k: int|
                0 <= k < path_views(self.paths@).len() && path_views(self.paths@)[k] == path;
        }
        false
    }
}

/// Whether some path of `changes` ends with `file`.
pub open spec fn touches(changes: Set<PathView>, file: PathView) -> bool {
    exists|path: PathView| changes.contains(path) && #[trigger] path.ends_with(file)
}

/// The changes among the events before the `a`-th, and among the first `b`
/// paths of the `a`-th.
spec fn changes_before(events: Seq<EventView>, a: int, b: int) -> Set<PathView> {
    Set::new(
        |path: PathView|
            exists|i: int, j: int| #[trigger]
                is_change(events, i, j) && (i < a || (i == a && j < b)) && path_of(
                    events[i].paths[j],
                ) == path,
    )
}

proof fn lemma_changes_before_start(events: Seq<EventView>)
    ensures
        changes_before(events, 0, 0) == Set::<PathView>::empty(),
{
}

proof fn lemma_changes_before_path(events: Seq<EventView>, a: int, b: int)
    requires
        is_change(events, a, b),
    ensures
        changes_before(events, a, b + 1) == changes_before(events, a, b).insert(
            path_of(events[a].paths[b]),
        ),
{
    let next = changes_before(events, a, b + 1);
    let grown = changes_before(events, a, b).insert(path_of(events[a].paths[b]));
    assert forall|path: PathView| next.contains(path) implies grown.contains(path) by {
        let (i, j): (int, int) = choose|i: int, j: int| #[trigger]
            is_change(events, i, j) && (i < a || (i == a && j < b + 1)) && path_of(
                events[i].paths[j],
            ) == path;
        if !(i == a && j == b) {
            assert(is_change(events, i, j) && (i < a || (i == a && j < b)));
        }
    }
    assert forall|path: PathView| grown.contains(path) implies next.contains(path) by {
        if path == path_of(events[a].paths[b]) {
            assert(is_change(events, a, b) && a == a && b < b + 1);
        } else {
            let (i, j): (int, int) = choose|i: int, j: int| #[trigger]
                is_change(events, i, j) && (i < a || (i == a && j < b)) && path_of(
                    events[i].paths[j],
                ) == path;
            assert(is_change(events, i, j) && (i < a || (i == a && j < b + 1)));
        }
    }
    assert(next =~= grown);
}

proof fn lemma_changes_before_event(events: Seq<EventView>, a: int, b: int)
    requires
        0 <= a < events.len(),
        events[a].kind != EventKind::Modified || b >= events[a].paths.len(),
    ensures
        changes_before(events, a + 1, 0) == changes_before(events, a, b),
{
    let next = changes_before(events, a + 1, 0);
    let same = changes_before(events, a, b);
    assert forall|path: PathView| next.contains(path) implies same.contains(path) by {
        let (i, j): (int, int) = choose|i: int, j: int| #[trigger]
            is_change(events, i, j) && (i < a + 1 || (i == a + 1 && j < 0)) && path_of(
                events[i].paths[j],
            ) == path;
        assert(is_change(events, i, j) && (i < a || (i == a && j < b)));
    }
    assert forall|path: PathView| same.contains(path) implies next.contains(path) by {
        let (i, j): (int, int) = choose|i: int, j: int| #[trigger]
            is_change(events, i, j) && (i < a || (i == a && j < b)) && path_of(
                events[i].paths[j],
            ) == path;
        assert(is_change(events, i, j) && i < a + 1);
    }
    assert(next =~= same);
}

proof fn lemma_changes_before_end(events: Seq<EventView>)
    ensures
        changes_before(events, events.len() as int, 0) == modified_paths(events),
{
    let all = changes_before(events, events.len() as int, 0);
    assert forall|path: PathView| all.contains(path) implies modified_paths(events).contains(
        path,
    ) by {
        let (i, j): (int, int) = choose|i: int, j: int| #[trigger]
            is_change(events, i, j) && (i < events.len() || (i == events.len() && j < 0))
                && path_of(events[i].paths[j]) == path;
        assert(is_change(events, i, j));
    }
    assert forall|path: PathView| modified_paths(events).contains(path) implies all.contains(
        path,
    ) by {
        let (i, j): (int, int) = choose|i: int, j: int| #[trigger]
            is_change(events, i, j) && path_of(events[i].paths[j]) == path;
        assert(is_change(events, i, j) && i < events.len());
    }
    assert(all =~= modified_paths(events));
}

/// Folds the events of one poll into a change set.
///
/// Returns `None` when no event modifies. Otherwise returns the set of the
/// paths that the modifying events name, each path once.
pub fn merge_modified(events: &Vec<WatchEvent>) -> (changes: Option<ChangeSet>)
    ensures
        changes_view(changes) == merged(event_views(events@)),
{
    let ghost views = event_views(events@);
    let mut set = ChangeSet::new();
    let mut modified = false;
    let mut a: usize = 0;
    proof {
        lemma_changes_before_start(views);
    }
    while a < events.len()
        invariant
            a <= events.len(),
            views == event_views(events@),
            set@ == changes_before(views, a as int, 0),
            modified == (exists|i: int|
                0 <= i < a && (#[trigger] views[i]).kind == EventKind::Modified),
        decreases events.len() - a,
    {
        let event = &events[a];
        if event.kind == EventKind::Modified {
            modified = true;
            let mut b: usize = 0;
            while b < event.paths.len()
                invariant
                    a < events.len(),
                    b <= event.paths.len(),
                    views == event_views(events@),
                    event == &events@[a as int],
                    views[a as int] == event@,
                    event.kind == EventKind::Modified,
                    set@ == changes_before(views, a as int, b as int),
                decreases event.paths.len() - b,
            {
                let path = WatchPath::parse(event.paths[b].as_str());
                proof {
                    lemma_changes_before_path(views, a as int, b as int);
                }
                set.insert(path);
                b += 1;
            }
            proof {
                lemma_changes_before_event(views, a as int, b as int);
            }
        } else {
            proof {
                lemma_changes_before_event(views, a as int, 0);
                assert forall|i: int| 0 <= i < a + 1 && (#[trigger] views[i]).kind
                    == EventKind::Modified implies 0 <= i < a by {}
            }
        }
        a += 1;
    }
    proof {
        lemma_changes_before_end(views);
    }
    if modified {
        Some(set)
    } else {
        None
    }
}

/// A poll without a modifying event reports no changes, whatever else was
/// queued; so does a poll that found the queue empty.
pub proof fn lemma_quiet_poll_reports_nothing(events: Seq<EventView>)
    requires
        forall|i: int| 0 <= i < events.len() ==> (#[trigger] events[i]).kind != EventKind::Modified,
    ensures
        merged(events) is None,
{
}

/// A poll with a modifying event reports a change set, and each path that a
/// modifying event names is in it.
pub proof fn lemma_modified_path_is_reported(events: Seq<EventView>, i: int, j: int)
    requires
        is_change(events, i, j),
    ensures
        merged(events) matches Some(changes) && changes.contains(path_of(events[i].paths[j])),
{
}

/// The change set holds a path once, however often it was reported: a poll
/// in which an event is queued a second time reports what it reports without
/// the repetition.
pub proof fn lemma_repeated_event_changes_nothing(events: Seq<EventView>, k: int)
    requires
        0 <= k < events.len(),
    ensures
        merged(events.push(events[k])) == merged(events),
{
    let twice = events.push(events[k]);
    let n = events.len() as int;
    assert(has_modification(twice) == has_modification(events)) by {
        if has_modification(events) {
            let i: int = choose|i: int|
                0 <= i < events.len() && (#[trigger] events[i]).kind == EventKind::Modified;
            assert(twice[i].kind == EventKind::Modified);
        }
        if has_modification(twice) {
            let i: int = choose|i: int|
                0 <= i < twice.len() && (#[trigger] twice[i]).kind == EventKind::Modified;
            let first: int = if i == n {
                k
            } else {
                i
            };
            assert(events[first].kind == EventKind::Modified);
        }
    }
    assert forall|path: PathView| modified_paths(twice).contains(path) implies modified_paths(
        events,
    ).contains(path) by {
        let (i, j): (int, int) = choose|i: int, j: int| #[trigger]
            is_change(twice, i, j) && path_of(twice[i].paths[j]) == path;
        if i == n {
            assert(is_change(events, k, j));
        } else {
            assert(is_change(events, i, j));
        }
    }
    assert forall|path: PathView| modified_paths(events).contains(path) implies modified_paths(
        twice,
    ).contains(path) by {
        let (i, j): (int, int) = choose|i: int, j: int| #[trigger]
            is_change(events, i, j) && path_of(events[i].paths[j]) == path;
        assert(is_change(twice, i, j));
    }
    assert(modified_paths(twice) =~= modified_paths(events));
}

} // verus!
