//! The phone-side import plugin: it picks local or cloud music and sends it,
//! chunk by chunk, to the watch's import app.

pub mod import;
pub mod library;
pub mod netease;
pub mod state;
pub mod ui;
