//! The reload protocol of a visual element.
//!
//! An element owns at most one draw bundle. After each poll of the file
//! watcher it is asked whether the changed files concern it. If they do, its
//! bundle is built anew by whoever owns the device, and the outcome is handed
//! back: a new bundle replaces the current one as a whole, a failed build
//! leaves the current one in place. [`reload`] does all of this in one call
//! for a caller that can hand over the build as a function.

use crate::change_set::{touches, ChangeSet};
use crate::path::{PathView, WatchPath};
use vstd::prelude::*;

verus! {

/// Whether a change of the paths in `changed` concerns an element that is
/// built from the two shader files: some changed path ends with one of them.
pub open spec fn concerns(
    changed: Set<PathView>,
    vertex_shader: PathView,
    fragment_shader: PathView,
) -> bool {
    touches(changed, vertex_shader) || touches(changed, fragment_shader)
}

/// What a slot holds after the outcome `built` of a build: the new bundle if
/// there is one, else what it held before.
pub open spec fn after_build<B>(current: Option<B>, built: Option<B>) -> Option<B> {
    match built {
        Some(bundle) => Some(bundle),
        None => current,
    }
}

/// Whether a change of the paths in `changed` concerns an element that is
/// built from the shader files `vertex_shader` and `fragment_shader`.
pub fn shaders_changed(changed: &ChangeSet, vertex_shader: &str, fragment_shader: &str) -> (rebuild:
    bool)
    ensures
        rebuild == concerns(
            changed@,
            crate::path::path_of(vertex_shader@),
            crate::path::path_of(fragment_shader@),
        ),
{
    let vertex = WatchPath::parse(vertex_shader);
    if changed.touches(&vertex) {
        return true;
    }
    let fragment = WatchPath::parse(fragment_shader);
    changed.touches(&fragment)
}

/// Puts the outcome of a build into the slot of the current bundle. Returns
/// whether the bundle was replaced.
pub fn swap_in<B>(slot: &mut Option<B>, built: Option<B>) -> (swapped: bool)
    ensures
        *final(slot) == after_build(*old(slot), built),
        swapped == built is Some,
{
    match built {
        Some(bundle) => {
            *slot = Some(bundle);
            true
        },
        None => false,
    }
}

/// A visual element that can be reloaded.
pub trait PipelineHandler {
    /// The draw bundle that the element owns.
    type Bundle;

    /// The bundle that the element draws with at present, if it has one.
    spec fn current(&self) -> Option<Self::Bundle>;

    /// The vertex shader that the element is built from.
    spec fn vertex_shader(&self) -> PathView;

    /// The fragment shader that the element is built from.
    spec fn fragment_shader(&self) -> PathView;

    /// Whether the element has to be built anew after the files in `changed`
    /// were modified: whether one of them is one of its two shaders.
    fn files_changed(&self, changed: &ChangeSet) -> (rebuild: bool)
        ensures
            rebuild == concerns(changed@, self.vertex_shader(), self.fragment_shader()),
    ;

    /// Takes the outcome of a build. A new bundle replaces the current one;
    /// without one the current bundle stays. Returns whether the bundle was
    /// replaced.
    fn bundle_built(&mut self, built: Option<Self::Bundle>) -> (swapped: bool)
        ensures
            final(self).current() == after_build(old(self).current(), built),
            final(self).vertex_shader() == old(self).vertex_shader(),
            final(self).fragment_shader() == old(self).fragment_shader(),
            swapped == built is Some,
    ;

    /// The bundle to draw with, if the element has one.
    fn render_bundle(&self) -> (bundle: Option<&Self::Bundle>)
        ensures
            bundle is Some <==> self.current() is Some,
            bundle matches Some(shown) ==> Some(*shown) == self.current(),
    ;
}

/// What the frame loop does with the outcome of a poll for one element:
/// whether the element has to be built anew. Without a change set nothing is
/// asked of the element.
pub fn needs_rebuild<H: PipelineHandler>(handler: &H, drained: &Option<ChangeSet>) -> (rebuild:
    bool)
    ensures
        rebuild == (drained matches Some(changed) && concerns(
            changed@,
            handler.vertex_shader(),
            handler.fragment_shader(),
        )),
{
    match drained {
        Some(changed) => handler.files_changed(changed),
        None => false,
    }
}

/// What a reload did to an element.
#[derive(Clone, Copy, Debug, PartialEq, Eq, Structural)]
pub enum Reload {
    /// The changed files do not concern the element: nothing was built.
    Unconcerned,
    /// The build failed: the element keeps the bundle that it had.
    Kept,
    /// The build succeeded: the element shows the new bundle.
    Replaced,
}

/// Reloads an element after the files in `changed` were modified.
///
/// If one of them is one of the element's two shaders, `build` is called,
/// once, and its outcome is handed to the element: a new bundle replaces the
/// current one, a failed build leaves it in place. If none is, `build` is not
/// called and the element stays as it is; `build` need not even be callable
/// then.
pub fn reload<H: PipelineHandler, F: FnOnce() -> Option<H::Bundle>>(
    handler: &mut H,
    changed: &ChangeSet,
    build: F,
) -> (outcome: Reload)
    requires
        concerns(changed@, old(handler).vertex_shader(), old(handler).fragment_shader())
            ==> build.requires(()),
    ensures
        final(handler).vertex_shader() == old(handler).vertex_shader(),
        final(handler).fragment_shader() == old(handler).fragment_shader(),
        outcome is Unconcerned <==> !concerns(
            changed@,
            old(handler).vertex_shader(),
            old(handler).fragment_shader(),
        ),
        outcome is Unconcerned ==> final(handler).current() == old(handler).current(),
        outcome is Kept ==> final(handler).current() == old(handler).current() && build.ensures(
            (),
            None,
        ),
        outcome is Replaced ==> final(handler).current() is Some && build.ensures(
            (),
            final(handler).current(),
        ),
{
    if handler.files_changed(changed) {
        let built = build();
        if handler.bundle_built(built) {
            Reload::Replaced
        } else {
            Reload::Kept
        }
    } else {
        Reload::Unconcerned
    }
}

/// A swap is all or nothing: after a build the slot holds the new bundle as
/// it was built, or, when the build failed, exactly what it held before.
pub proof fn lemma_swap_is_all_or_nothing<B>(current: Option<B>, built: Option<B>)
    ensures
        built is Some ==> after_build(current, built) == built,
        built is None ==> after_build(current, built) == current,
{
}

/// What a slot holds after `failures` failed builds in a row.
pub open spec fn after_failures<B>(current: Option<B>, failures: nat) -> Option<B>
    decreases failures,
{
    if failures == 0 {
        current
    } else {
        after_build(after_failures(current, (failures - 1) as nat), None)
    }
}

/// However many builds fail in a row, the slot keeps the last bundle that
/// was built.
pub proof fn lemma_failures_keep_last_good<B>(current: Option<B>, failures: nat)
    ensures
        after_failures(current, failures) == current,
    decreases failures,
{
    if failures > 0 {
        lemma_failures_keep_last_good(current, (failures - 1) as nat);
    }
}

/// Paths that end with neither shader of an element do not concern it.
pub proof fn lemma_unrelated_paths_do_not_concern(
    changed: Set<PathView>,
    vertex_shader: PathView,
    fragment_shader: PathView,
)
    requires
        forall|path: PathView| #[trigger]
            changed.contains(path) ==> !path.ends_with(vertex_shader) && !path.ends_with(
                fragment_shader,
            ),
    ensures
        !concerns(changed, vertex_shader, fragment_shader),
{
    if touches(changed, vertex_shader) {
        let path = choose|path: PathView|
            changed.contains(path) && #[trigger] path.ends_with(vertex_shader);
        assert(changed.contains(path) && path.ends_with(vertex_shader));
    }
    if touches(changed, fragment_shader) {
        let path = choose|path: PathView|
            changed.contains(path) && #[trigger] path.ends_with(fragment_shader);
        assert(changed.contains(path) && path.ends_with(fragment_shader));
    }
}

/// A changed path that ends with one of the two shaders of an element
/// concerns it.
pub proof fn lemma_changed_shader_concerns(
    changed: Set<PathView>,
    path: PathView,
    vertex_shader: PathView,
    fragment_shader: PathView,
)
    requires
        changed.contains(path),
        path.ends_with(vertex_shader) || path.ends_with(fragment_shader),
    ensures
        concerns(changed, vertex_shader, fragment_shader),
{
}

} // verus!
