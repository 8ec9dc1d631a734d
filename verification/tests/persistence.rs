use lyra_player::model::Session;
use lyra_player::persistence::{accept_session_file, session_file, PersistenceError};
use lyra_player::persistence::{is_safe_local_path, safe_import_path};

#[test]
fn import_paths_reject_traversal() {
    assert!(safe_import_path("track.mp3").is_some());
    assert!(safe_import_path("../track.mp3").is_none());
    assert!(safe_import_path("track..backup.mp3").is_none());
    assert!(safe_import_path("cover.png").is_none());
    assert!(is_safe_local_path("/data/canopus/track.mp3"));
    assert!(!is_safe_local_path("/etc/passwd"));
}

#[test]
fn safe_import_path_is_under_the_import_directory() {
    assert_eq!(safe_import_path("track.mp3").as_deref(), Some("/data/canopus/track.mp3"));
}

use lyra_player::persistence::{clear_session, read_file, write_file, Store, SESSION_PATH};
use std::collections::BTreeMap;

#[derive(Default)]
struct MemoryStore(BTreeMap<String, Vec<u8>>);

impl Store for MemoryStore {
    type Error = ();
    fn read(&mut self, path: &str) -> Result<Option<Vec<u8>>, Self::Error> {
        Ok(self.0.get(path).cloned())
    }
    fn write_atomic(&mut self, path: &str, bytes: &[u8]) -> Result<(), Self::Error> {
        self.0.insert(path.into(), bytes.to_vec());
        Ok(())
    }
    fn remove(&mut self, path: &str) -> Result<(), Self::Error> {
        self.0.remove(path);
        Ok(())
    }
}

#[test]
fn stored_file_reads_back_and_clears() {
    let mut store = MemoryStore::default();
    assert_eq!(read_file(&mut store, SESSION_PATH), Ok(None));
    write_file(&mut store, SESSION_PATH, b"{\"version\":1}").unwrap();
    assert_eq!(read_file(&mut store, SESSION_PATH), Ok(Some(b"{\"version\":1}".to_vec())));
    clear_session(&mut store).unwrap();
    assert_eq!(read_file(&mut store, SESSION_PATH), Ok(None));
}

#[test]
fn stored_files_of_the_wrong_version_are_refused() {
    let file = session_file(Session::default());
    assert_eq!(file.version, 1);
    assert_eq!(accept_session_file::<()>(Ok(file.clone())), Ok(Some(Session::default())));
    let old = lyra_player::persistence::SessionFile { version: 0, ..file };
    assert_eq!(accept_session_file::<()>(Ok(old)), Err(PersistenceError::Version));
    assert_eq!(accept_session_file::<()>(Err(())), Err(PersistenceError::Json));
}

#[test]
fn every_import_path_passes_the_local_path_check() {
    for name in ["track.mp3", "曲目 一.mp3", "a-b_c (live).mp3", "x.mp3"] {
        let path = safe_import_path(name).unwrap();
        assert!(is_safe_local_path(&path), "{path}");
    }
    assert!(!is_safe_local_path("/data/canopus/.hidden.mp3"));
    assert!(!is_safe_local_path("/data/other/track.mp3"));
}
