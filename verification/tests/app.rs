use lyra_player::app::{Action, Effect, LyraApp, Route};
use lyra_player::model::Song;
use lyra_player::playback::PlaybackState;

fn local_song(id: u64) -> Song {
    Song {
        id,
        name: format!("Track {id}"),
        local_path: Some(format!(
            "/data/files/com.canopus.lyraimport/lyra/tracks/{id}/audio.mp3"
        )),
        ..Song::default()
    }
}

#[test]
fn selection_only_emits_local_effects() {
    let mut app = LyraApp::default();
    app.update(Action::Boot(vec![local_song(1), local_song(2)]));
    let effects = app.update(Action::SelectSong(local_song(1)));
    assert!(effects
        .iter()
        .any(|effect| matches!(effect, Effect::StreamAudio { .. })));
    assert!(!effects.iter().any(
        |effect| matches!(effect, Effect::StreamAudio { path } if path.starts_with("http"))
    ));
}

#[test]
fn previous_and_next_follow_local_library_order_without_wrapping() {
    let mut app = LyraApp::default();
    let tracks = vec![local_song(10), local_song(20), local_song(30)];
    app.update(Action::Boot(tracks.clone()));

    app.update(Action::SelectSong(tracks[0].clone()));
    assert!(!app.has_previous());
    assert!(app.has_next());
    assert!(app.update(Action::Previous).is_empty());
    assert_eq!(app.player.current.as_ref().map(|song| song.id), Some(10));

    let effects = app.update(Action::Next);
    assert!(effects
        .iter()
        .any(|effect| matches!(effect, Effect::StreamAudio { .. })));
    assert_eq!(app.player.current.as_ref().map(|song| song.id), Some(20));
    assert!(app.has_previous());
    assert!(app.has_next());

    app.update(Action::Next);
    assert_eq!(app.player.current.as_ref().map(|song| song.id), Some(30));
    assert!(app.has_previous());
    assert!(!app.has_next());
    assert!(app.update(Action::Next).is_empty());
    assert_eq!(app.player.current.as_ref().map(|song| song.id), Some(30));
}

#[test]
fn completed_track_can_still_select_previous_library_track() {
    let mut app = LyraApp::default();
    let tracks = vec![local_song(1), local_song(2), local_song(3)];
    app.update(Action::Boot(tracks.clone()));
    app.update(Action::SelectSong(tracks[2].clone()));
    app.player.state = PlaybackState::Draining;

    let effects = app.update(Action::Previous);

    assert!(effects
        .iter()
        .any(|effect| matches!(effect, Effect::StreamAudio { .. })));
    assert_eq!(app.player.current.as_ref().map(|song| song.id), Some(2));
    assert_eq!(app.player.position_ms, 0);
    assert_eq!(app.player.state, PlaybackState::Resolving);
}

#[test]
fn unchanged_library_does_not_invalidate_ui() {
    let mut app = LyraApp::default();
    let tracks = vec![local_song(1)];
    app.update(Action::Boot(tracks.clone()));
    let generation = app.generation;
    assert!(app.update(Action::ReloadLibrary(tracks)).is_empty());
    assert_eq!(app.generation, generation);
}

#[test]
fn back_returns_to_the_route_before_open() {
    let mut app = LyraApp::default();
    let effects = app.update(Action::Open(Route::Library));
    assert!(effects
        .iter()
        .any(|effect| matches!(effect, Effect::Navigate(Route::Library))));
    assert_eq!(app.route, Route::Library);
    app.update(Action::Open(Route::Player));
    app.update(Action::Back);
    assert_eq!(app.route, Route::Library);
    app.update(Action::Back);
    assert_eq!(app.route, Route::Home);
}

#[test]
fn song_without_local_file_is_refused() {
    let mut app = LyraApp::default();
    let song = Song { id: 5, name: "Remote".to_string(), ..Song::default() };
    let effects = app.update(Action::SelectSong(song));
    assert!(!effects
        .iter()
        .any(|effect| matches!(effect, Effect::StreamAudio { .. })));
    assert_eq!(app.route, Route::Player);
    assert_eq!(app.player.state, PlaybackState::Failed);
    assert_eq!(app.error.as_deref(), Some("歌曲缺少本地音频文件"));
}

#[test]
fn route_page_indices_round_trip() {
    for route in [Route::Home, Route::Library, Route::Player] {
        assert_eq!(Route::from_page_index(route.page_index()), Some(route));
    }
    assert_eq!(Route::from_page_index(9), None);
}

#[test]
fn next_acts_as_selecting_the_following_track() {
    let tracks = vec![local_song(10), local_song(20), local_song(30)];
    let mut stepped = LyraApp::default();
    stepped.update(Action::Boot(tracks.clone()));
    stepped.update(Action::SelectSong(tracks[1].clone()));
    let mut selected = stepped.clone();

    let by_step = stepped.update(Action::Next);
    let by_select = selected.update(Action::SelectSong(tracks[2].clone()));
    assert_eq!(format!("{by_step:?}"), format!("{by_select:?}"));
    assert_eq!(stepped.route, selected.route);
    assert_eq!(stepped.history, selected.history);
    assert_eq!(stepped.generation, selected.generation);
    assert_eq!(stepped.error, selected.error);
    assert_eq!(stepped.player.state, selected.player.state);
    assert_eq!(
        stepped.player.current.as_ref().map(|song| song.id),
        selected.player.current.as_ref().map(|song| song.id)
    );

    let by_step = stepped.update(Action::Previous);
    let by_select = selected.update(Action::SelectSong(tracks[1].clone()));
    assert_eq!(format!("{by_step:?}"), format!("{by_select:?}"));
    assert_eq!(
        stepped.player.current.as_ref().map(|song| song.id),
        Some(20)
    );
}
