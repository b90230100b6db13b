//! Paths as sequences of named components, and matching by suffix.
//!
//! A path is read as the pieces between its separators. Empty pieces and
//! pieces that are a single dot name nothing and are dropped, so that
//! `a//b/` and `a/./b` are the path `a/b`. A path that starts with a separator
//! is absolute. Two paths are the same when they agree in both.

use vstd::prelude::*;

verus! {

broadcast use vstd::string::group_string_axioms;

/// The character that separates the components of a path.
pub const SEPARATOR: char = '/';

/// What a path is to this crate: whether it starts at the root, and its
/// components in order.
pub struct PathView {
    /// Whether the path starts at the root.
    pub absolute: bool,
    /// The named components, outermost first.
    pub components: Seq<Seq<char>>,
}

/// The pieces between the separators of `text`, the empty ones included:
/// a text with `n` separators has `n + 1` pieces.
pub open spec fn pieces(text: Seq<char>) -> Seq<Seq<char>>
    decreases text.len(),
{
    if text.len() == 0 {
        seq![Seq::<char>::empty()]
    } else {
        let before = pieces(text.drop_last());
        if text.last() == SEPARATOR {
            before.push(Seq::<char>::empty())
        } else {
            before.drop_last().push(before.last().push(text.last()))
        }
    }
}

/// A piece names a component unless it is empty or a single dot.
pub open spec fn is_name(piece: Seq<char>) -> bool {
    piece.len() > 0 && !(piece.len() == 1 && piece[0] == '.')
}

/// The path that `text` spells.
pub open spec fn path_of(text: Seq<char>) -> PathView {
    PathView {
        absolute: text.len() > 0 && text[0] == SEPARATOR,
        components: pieces(text).filter(|piece: Seq<char>| is_name(piece)),
    }
}

impl PathView {
    /// Whether `suffix` is a suffix of this path, component by component.
    ///
    /// A relative `suffix` matches when its components are the last
    /// components of this path. An absolute one matches only the same path.
    pub open spec fn ends_with(self, suffix: PathView) -> bool {
        if suffix.absolute {
            self.absolute && self.components == suffix.components
        } else {
            suffix.components.is_suffix_of(self.components)
        }
    }
}

/// The views of the components that a vector holds.
pub open spec fn component_views(components: Seq<Vec<char>>) -> Seq<Seq<char>> {
    Seq::new(components.len(), |i: int| components[i]@)
}

/// A path, held as its components.
#[derive(Debug)]
pub struct WatchPath {
    absolute: bool,
    components: Vec<Vec<char>>,
}

impl View for WatchPath {
    type V = PathView;

    closed spec fn view(&self) -> PathView {
        PathView { absolute: self.absolute, components: component_views(self.components@) }
    }
}

/// The characters of `text`, in order.
fn chars_of(text: &str) -> (chars: Vec<char>)
    ensures
        chars@ == text@,
{
    let mut chars: Vec<char> = Vec::new();
    for c in it: text.chars()
        invariant
            it.seq() == text@,
            chars@ == it.seq().take(it.index() as int),
    {
        chars.push(c);
    }
    chars
}

/// Whether two components consist of the same characters.
fn same_component(left: &Vec<char>, right: &Vec<char>) -> (same: bool)
    ensures
        same == (left@ == right@),
{
    if left.len() != right.len() {
        return false;
    }
    let mut i: usize = 0;
    while i < left.len()
        invariant
            left.len() == right.len(),
            i <= left.len(),
            forall|k: int| 0 <= k < i ==> left@[k] == right@[k],
        decreases left.len() - i,
    {
        if left[i] != right[i] {
            return false;
        }
        i += 1;
    }
    assert(left@ =~= right@);
    true
}

impl WatchPath {
    /// Reads `text` as a path.
    pub fn parse(text: &str) -> (path: WatchPath)
        ensures
            path@ == path_of(text@),
    {
        let chars = chars_of(text);
        let absolute = chars.len() > 0 && chars[0] == SEPARATOR;
        let mut components: Vec<Vec<char>> = Vec::new();
        let mut current: Vec<char> = Vec::new();
        let ghost mut closed: Seq<Seq<char>> = Seq::empty();
        let ghost named = |piece: Seq<char>| is_name(piece);
        let mut i: usize = 0;
        proof {
            reveal(Seq::filter);
        }
        while i < chars.len()
            invariant
                i <= chars.len(),
                named == (|piece: Seq<char>| is_name(piece)),
                pieces(chars@.take(i as int)) == closed.push(current@),
                component_views(components@) == closed.filter(named),
            decreases chars.len() - i,
        {
            let c = chars[i];
            proof {
                assert(chars@.take(i + 1).drop_last() =~= chars@.take(i as int));
            }
            if c == SEPARATOR {
                proof {
                    closed.lemma_filter_push(current@, named);
                }
                if current.len() > 0 && !(current.len() == 1 && current[0] == '.') {
                    proof {
                        assert(component_views(components@.push(current)) =~= component_views(
                            components@,
                        ).push(current@));
                    }
                    components.push(current);
                }
                proof {
                    closed = closed.push(current@);
                }
                current = Vec::new();
            } else {
                current.push(c);
            }
            i += 1;
        }
        proof {
            assert(chars@.take(chars.len() as int) =~= chars@);
            closed.lemma_filter_push(current@, named);
        }
        if current.len() > 0 && !(current.len() == 1 && current[0] == '.') {
            proof {
                assert(component_views(components@.push(current)) =~= component_views(
                    components@,
                ).push(current@));
            }
            components.push(current);
        }
        WatchPath { absolute, components }
    }

    /// The number of components of the path.
    pub fn len(&self) -> (count: usize)
        ensures
            count == self@.components.len(),
    {
        self.components.len()
    }

    /// Whether the path starts at the root.
    pub fn is_absolute(&self) -> (absolute: bool)
        ensures
            absolute == self@.absolute,
    {
        self.absolute
    }

    /// Whether the last `count` components of this path are the last `count`
    /// components of `other`.
    fn same_tail(&self, other: &WatchPath, count: usize) -> (same: bool)
        requires
            count <= self@.components.len(),
            count <= other@.components.len(),
        ensures
            same == (self@.components.subrange(
                self@.components.len() - count,
                self@.components.len() as int,
            ) == other@.components.subrange(
                other@.components.len() - count,
                other@.components.len() as int,
            )),
    {
        let from_self = self.components.len() - count;
        let from_other = other.components.len() - count;
        let ghost left = self@.components.subrange(from_self as int, self@.components.len() as int);
        let ghost right = other@.components.subrange(
            from_other as int,
            other@.components.len() as int,
        );
        let mut k: usize = 0;
        while k < count
            invariant
                k <= count,
                from_self + count == self.components.len(),
                from_other + count == other.components.len(),
                left == self@.components.subrange(from_self as int, self@.components.len() as int),
                right == other@.components.subrange(
                    from_other as int,
                    other@.components.len() as int,
                ),
                forall|j: int| 0 <= j < k ==> left[j] == right[j],
            decreases count - k,
        {
            if !same_component(&self.components[from_self + k], &other.components[from_other + k]) {
                assert(left[k as int] != right[k as int]);
                return false;
            }
            k += 1;
        }
        assert(left =~= right);
        true
    }

    /// Whether this path and `other` are the same path.
    pub fn same_as(&self, other: &WatchPath) -> (same: bool)
        ensures
            same == (self@ == other@),
    {
        if self.absolute != other.absolute || self.components.len() != other.components.len() {
            assert(self@.absolute != other@.absolute || self@.components.len()
                != other@.components.len());
            return false;
        }
        let same = self.same_tail(other, self.components.len());
        proof {
            let n = self@.components.len() as int;
            assert(self@.components.subrange(0, n) =~= self@.components);
            assert(other@.components.subrange(0, n) =~= other@.components);
        }
        same
    }

    /// Whether `suffix` is a suffix of this path, component by component.
    pub fn ends_with(&self, suffix: &WatchPath) -> (matches: bool)
        ensures
            matches == self@.ends_with(suffix@),
    {
        if suffix.absolute {
            self.same_as(suffix)
        } else if suffix.components.len() > self.components.len() {
            false
        } else {
            let matches = self.same_tail(suffix, suffix.components.len());
            proof {
                let m = suffix@.components.len() as int;
                assert(suffix@.components.subrange(0, m) =~= suffix@.components);
            }
            matches
        }
    }
}

/// The pieces of two texts joined by a separator are the pieces of the first
/// followed by the pieces of the second.
pub proof fn lemma_pieces_of_joined(front: Seq<char>, back: Seq<char>)
    ensures
        pieces(front + seq![SEPARATOR] + back) == pieces(front) + pieces(back),
    decreases back.len(),
{
    let joined = front + seq![SEPARATOR] + back;
    if back.len() == 0 {
        assert(joined.drop_last() =~= front);
    } else {
        lemma_pieces_of_joined(front, back.drop_last());
        lemma_pieces_nonempty(back.drop_last());
        assert(joined.drop_last() =~= front + seq![SEPARATOR] + back.drop_last());
        let before = pieces(front) + pieces(back.drop_last());
        if back.last() != SEPARATOR {
            assert(before.drop_last().push(before.last().push(back.last())) =~= pieces(front)
                + pieces(back));
        }
    }
}

/// Every text has at least one piece.
pub proof fn lemma_pieces_nonempty(text: Seq<char>)
    ensures
        pieces(text).len() > 0,
    decreases text.len(),
{
    if text.len() > 0 {
        lemma_pieces_nonempty(text.drop_last());
    }
}

/// A file below a directory is found by its relative path: the text
/// `directory`, a separator and the relative text `relative` spell a path
/// that ends with the path that `relative` spells.
pub proof fn lemma_nested_path_ends_with(directory: Seq<char>, relative: Seq<char>)
    requires
        !path_of(relative).absolute,
    ensures
        path_of(directory + seq![SEPARATOR] + relative).ends_with(path_of(relative)),
{
    let named = |piece: Seq<char>| is_name(piece);
    lemma_pieces_of_joined(directory, relative);
    Seq::filter_distributes_over_add(pieces(directory), pieces(relative), named);
}

/// A path that ends with one file does not end with a file of another name:
/// two relative paths whose last components differ are never suffixes of the
/// same path.
pub proof fn lemma_other_file_does_not_match(path: PathView, file: PathView, other: PathView)
    requires
        path.ends_with(file),
        !file.absolute,
        !other.absolute,
        file.components.len() > 0,
        other.components.len() > 0,
        file.components.last() != other.components.last(),
    ensures
        !path.ends_with(other),
{
    if path.ends_with(other) {
        let last = path.components.len() - 1;
        assert(file.components.last() == path.components[last]);
        assert(other.components.last() == path.components[last]);
    }
}

/// A text without separator has one piece: itself.
pub proof fn lemma_pieces_of_name(name: Seq<char>)
    requires
        forall|i: int| 0 <= i < name.len() ==> name[i] != SEPARATOR,
    ensures
        pieces(name) == seq![name],
    decreases name.len(),
{
    if name.len() == 0 {
        assert(name =~= Seq::<char>::empty());
    } else {
        let front = name.drop_last();
        assert forall|i: int| 0 <= i < front.len() implies front[i] != SEPARATOR by {
            assert(front[i] == name[i]);
        }
        lemma_pieces_of_name(front);
        assert(front.push(name.last()) =~= name);
    }
}

/// The last component of a path is the name that follows its last separator:
/// the text `front`, a separator and a name without separator spell a path
/// whose last component is that name.
pub proof fn lemma_last_component(front: Seq<char>, name: Seq<char>)
    requires
        forall|i: int| 0 <= i < name.len() ==> name[i] != SEPARATOR,
        is_name(name),
    ensures
        path_of(front + seq![SEPARATOR] + name).components.len() > 0,
        path_of(front + seq![SEPARATOR] + name).components.last() == name,
{
    let named = |piece: Seq<char>| is_name(piece);
    lemma_pieces_of_joined(front, name);
    lemma_pieces_of_name(name);
    assert(pieces(front) + seq![name] =~= pieces(front).push(name));
    pieces(front).lemma_filter_push(name, named);
}

} // verus!
