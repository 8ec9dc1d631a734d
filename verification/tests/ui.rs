use lyra_player::app::{LyraApp, Route};
use lyra_player::model::{AlbumRef, Song};
use lyra_player::playback::PlaybackState;
use lyra_player::ui::{playback_label, progress_text, render, Node, UiEvent, EVENT_LOCAL_SONG_BASE};

#[test]
fn every_local_route_renders() {
    let mut app = LyraApp::default();
    for (route, title) in [(Route::Home, "Lyra"), (Route::Library, "本地音乐"), (Route::Player, "正在播放")] {
        app.route = route;
        let page = render(&app);
        assert_eq!(page.title, title);
        assert!(!page.nodes.is_empty());
    }
}

#[test]
fn imported_cover_is_rendered_on_player() {
    let mut app = LyraApp { route: Route::Player, ..LyraApp::default() };
    app.player.current = Some(Song {
        id: 1,
        name: "Test".into(),
        album: AlbumRef {
            cover_url: format!("{}/tracks/1/cover.jpg", "/data/canopus"),
            ..AlbumRef::default()
        },
        ..Song::default()
    });
    let page = render(&app);
    assert!(page.nodes.iter().any(|node| matches!(node, Node::Image { .. })));
}

#[test]
fn progress_and_state_labels() {
    assert_eq!(progress_text(65_000, 3_600_000), "01:05 / 60:00");
    assert_eq!(progress_text(0, 0), "00:00 / 00:00");
    assert_eq!(playback_label(PlaybackState::Paused), "已暂停");
    assert_eq!(playback_label(PlaybackState::Failed), "播放失败");
}

#[test]
fn library_rows_send_song_events() {
    let mut app = LyraApp { route: Route::Library, ..LyraApp::default() };
    app.local_tracks = (0..25).map(|id| Song { id, name: format!("S{id}"), ..Song::default() }).collect();
    let page = render(&app);
    let rows: Vec<u32> = page
        .nodes
        .iter()
        .filter_map(|node| match node {
            Node::Action { event: UiEvent(e), .. } if *e >= EVENT_LOCAL_SONG_BASE => Some(*e),
            _ => None,
        })
        .collect();
    assert_eq!(rows.len(), 20);
    assert_eq!(rows[3], EVENT_LOCAL_SONG_BASE + 3);
}

#[test]
fn home_shows_the_error() {
    let app = LyraApp { error: Some("boom".into()), ..LyraApp::default() };
    let page = render(&app);
    assert!(page
        .nodes
        .iter()
        .any(|node| matches!(node, Node::Text { key: 90, text, .. } if text == "boom")));
}
