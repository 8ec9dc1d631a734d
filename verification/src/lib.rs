//! Lyra Player: a local music player for a watch, and the import plugin that feeds it.
use vstd::prelude::*;

pub mod api;
pub mod app;
pub mod bridge;
pub mod codec;
pub mod model;
pub mod persistence;
pub mod plugin;
pub mod playback;
pub mod registry;
pub mod text;
pub mod ui;

verus! {

} // verus!
