//! The plugin's screen state.
use vstd::prelude::*;

verus! {

/// A connected watch.
#[derive(Clone, Debug, Default)]
pub struct DeviceInfo {
    pub addr: String,
    pub name: String,
}

/// A file picked for import.
#[derive(Clone, Debug, Default)]
pub struct SelectedFile {
    pub name: String,
    pub path: String,
    pub size: u64,
}

/// A song found in the cloud catalogue.
#[derive(Clone, Debug, Default)]
pub struct CloudSong {
    pub id: u64,
    pub name: String,
    pub artists: Vec<String>,
    pub album: String,
    pub album_id: u64,
    pub duration_ms: u32,
    pub cover_url: String,
}

/// A track of the library on the watch.
#[derive(Clone, Debug, Default)]
pub struct DeviceLibraryTrack {
    pub id: u64,
    pub name: String,
    pub artists: Vec<String>,
    pub album: String,
    pub duration_ms: u32,
}

/// Everything the plugin's screen shows.
#[derive(Clone, Debug, Default)]
pub struct UiState {
    pub root: Option<String>,
    pub devices: Vec<DeviceInfo>,
    pub selected_addr: String,
    pub audio: Option<SelectedFile>,
    pub cover: Option<SelectedFile>,
    pub lyrics: Option<SelectedFile>,
    pub track_name: String,
    pub artist: String,
    pub album: String,
    pub duration_ms: u32,
    pub status: String,
    pub sent: u64,
    pub total: u64,
    pub active: bool,
    pub netease_cookie: String,
    pub netease_query: String,
    pub netease_results: Vec<CloudSong>,
    pub netease_selected: usize,
    pub qr_key: String,
    pub qr_url: String,
    pub library_request_id: String,
    pub library_revision: String,
    pub library_total: usize,
    pub library_nonce: u64,
    pub device_library: Vec<DeviceLibraryTrack>,
}

} // verus!
