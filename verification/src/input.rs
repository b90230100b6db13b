//! Tracking of held, freshly pressed and freshly released inputs.

use std::collections::HashSet;
use std::hash::Hash;
use vstd::prelude::*;
use vstd::std_specs::hash::obeys_key_model;

verus! {

broadcast use vstd::std_specs::hash::group_hash_axioms;

/// The state of a set of inputs (keys, buttons) between two frames.
///
/// Three sets are tracked: the inputs currently held, those that went down
/// since the last [`Input::update`], and those that went up since then.
pub struct Input<T> {
    pressed: HashSet<T>,
    just_pressed: HashSet<T>,
    just_released: HashSet<T>,
}

impl<T> Input<T> {
    /// The inputs that are currently held.
    pub closed spec fn held(&self) -> Set<T> {
        self.pressed@
    }

    /// The inputs that went down since the last update.
    pub closed spec fn went_down(&self) -> Set<T> {
        self.just_pressed@
    }

    /// The inputs that went up since the last update.
    pub closed spec fn went_up(&self) -> Set<T> {
        self.just_released@
    }

    /// An input state in which nothing is held and nothing has changed.
    pub fn new() -> (input: Self)
        ensures
            input.held() == Set::<T>::empty(),
            input.went_down() == Set::<T>::empty(),
            input.went_up() == Set::<T>::empty(),
    {
        Input {
            pressed: HashSet::new(),
            just_pressed: HashSet::new(),
            just_released: HashSet::new(),
        }
    }
}

impl<T> Default for Input<T> {
    fn default() -> (input: Self)
        ensures
            input.held() == Set::<T>::empty(),
            input.went_down() == Set::<T>::empty(),
            input.went_up() == Set::<T>::empty(),
    {
        Input::new()
    }
}

impl<T: Copy + Eq + Hash> Input<T> {
    /// Records that `value` went down: it is held from now on and counts as
    /// freshly pressed until the next update.
    pub fn activate(&mut self, value: T)
        ensures
            obeys_key_model::<T>() ==> final(self).held() == old(self).held().insert(value),
            obeys_key_model::<T>() ==> final(self).went_down() == old(self).went_down().insert(
                value,
            ),
            final(self).went_up() == old(self).went_up(),
    {
        self.pressed.insert(value);
        self.just_pressed.insert(value);
    }

    /// Records that `value` went up: it is no longer held and counts as
    /// freshly released until the next update.
    pub fn deactivate(&mut self, value: T)
        ensures
            obeys_key_model::<T>() ==> final(self).held() == old(self).held().remove(value),
            obeys_key_model::<T>() ==> final(self).went_up() == old(self).went_up().insert(value),
            final(self).went_down() == old(self).went_down(),
    {
        self.pressed.remove(&value);
        self.just_released.insert(value);
    }

    /// Ends the frame: what was freshly pressed or released is forgotten,
    /// what is held stays held.
    pub fn update(&mut self)
        ensures
            final(self).held() == old(self).held(),
            final(self).went_down() == Set::<T>::empty(),
            final(self).went_up() == Set::<T>::empty(),
    {
        self.just_pressed.clear();
        self.just_released.clear();
    }

    /// Whether `value` is currently held.
    pub fn pressed(&self, value: T) -> (held: bool)
        ensures
            obeys_key_model::<T>() ==> held == self.held().contains(value),
    {
        self.pressed.contains(&value)
    }

    /// Whether `value` went down since the last update.
    pub fn just_pressed(&self, value: T) -> (fresh: bool)
        ensures
            obeys_key_model::<T>() ==> fresh == self.went_down().contains(value),
    {
        self.just_pressed.contains(&value)
    }

    /// Whether `value` went up since the last update.
    pub fn just_released(&self, value: T) -> (fresh: bool)
        ensures
            obeys_key_model::<T>() ==> fresh == self.went_up().contains(value),
    {
        self.just_released.contains(&value)
    }
}

} // verus!
