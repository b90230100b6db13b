//! Hot-reload core of a small renderer of instanced geometry.
//!
//! The renderer draws a field of grass on a square of ground. Each of the two
//! is a visual element with a pair of shaders and a prerecorded draw bundle,
//! and while the renderer runs, an edit of a shader file rebuilds the bundles
//! that are built from it. This crate holds the rules of that reload:
//!
//! - [`path`] reads paths as components and matches them by suffix;
//! - [`change_set`] folds the events of the file watcher into the set of
//!   changed paths;
//! - [`file_watcher`] drains the watcher's queue once per frame;
//! - [`pipeline`] describes a render pipeline and sequences its build from
//!   two shader files;
//! - [`layout`] and [`bundle`] describe the vertex buffers and the draw
//!   commands of an element;
//! - [`handler`] is the reload protocol of an element, [`grass`] and [`quad`]
//!   are the two elements, and [`scene`] relates them;
//! - [`input`] tracks which keys are held.
//!
//! The device, the window and the shader compiler are not touched from here.
//! Whoever owns them performs the steps that this crate asks for and hands
//! back the outcomes.

pub mod bundle;
pub mod change_set;
pub mod file_watcher;
pub mod grass;
pub mod handler;
pub mod input;
pub mod layout;
pub mod path;
pub mod pipeline;
pub mod quad;
pub mod scene;
