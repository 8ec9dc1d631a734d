use lyra_player::plugin::ui::{screen, Widget};
use lyra_player::plugin::state::{CloudSong, SelectedFile, UiState};
use lyra_player::plugin::ui::{
    apply_event, asset_label, begin_search, cloud_choice, cloud_song_label, finish_qr_poll,
    finish_search, local_import, percent_encode, progress_percent, qr_image_url, record_pick,
    UiCommand, EVENT_DURATION, EVENT_NAME, EVENT_PICK_COVER,
};

#[test]
fn qr_image_url_encodes_the_login_link() {
    assert_eq!(
        qr_image_url("https://music.163.com/login?codekey=a%2Bb"),
        "https://api.qrserver.com/v1/create-qr-code/?size=260x260&data=https%3A%2F%2Fmusic.163.com%2Flogin%3Fcodekey%3Da%252Bb"
    );
    assert_eq!(percent_encode("a-b_c.d~e f"), "a-b_c.d~e%20f");
}

#[test]
fn asset_labels() {
    assert_eq!(asset_label("audio"), "音频");
    assert_eq!(asset_label("cover"), "封面");
    assert_eq!(asset_label("lyrics"), "歌词");
    assert_eq!(asset_label("video"), "文件");
}

#[test]
fn input_events_store_values() {
    let mut ui = UiState::default();
    assert!(matches!(apply_event(&mut ui, EVENT_NAME, Some("Song".into())), UiCommand::Nothing));
    assert_eq!(ui.track_name, "Song");
    apply_event(&mut ui, EVENT_DURATION, Some("+1500".into()));
    assert_eq!(ui.duration_ms, 1500);
    apply_event(&mut ui, EVENT_DURATION, Some("abc".into()));
    assert_eq!(ui.duration_ms, 0);
    apply_event(&mut ui, EVENT_DURATION, Some("4294967296".into()));
    assert_eq!(ui.duration_ms, 0);
    let UiCommand::PickAsset { kind, extensions } = apply_event(&mut ui, EVENT_PICK_COVER, None) else {
        panic!("expected picker");
    };
    assert_eq!(kind, "cover");
    assert_eq!(extensions, vec!["jpg", "jpeg", "png"]);
    assert!(matches!(apply_event(&mut ui, "action:unknown", None), UiCommand::Nothing));
}

#[test]
fn picking_audio_names_the_track() {
    let mut ui = UiState::default();
    let file = SelectedFile { name: "my.song.mp3".into(), path: "media/my.song.mp3".into(), size: 3 };
    record_pick(&mut ui, "audio", Ok(file));
    assert_eq!(ui.track_name, "my.song");
    assert_eq!(ui.status, "已选择音频。");
    record_pick(&mut ui, "cover", Err("cannot stat file".into()));
    assert_eq!(ui.status, "文件读取失败：cannot stat file");
    assert!(ui.cover.is_none());
}

#[test]
fn local_import_builds_track_and_files() {
    let mut ui = UiState::default();
    assert!(local_import(&mut ui, 1).is_none());
    assert_eq!(ui.status, "请先选择 MP3。");
    ui.audio = Some(SelectedFile { name: "a.mp3".into(), path: "media/a.mp3".into(), size: 3 });
    ui.track_name = "  ".into();
    assert!(local_import(&mut ui, 1).is_none());
    assert_eq!(ui.status, "曲名不能为空。");
    ui.track_name = " Name ".into();
    ui.artist = " Singer ".into();
    ui.cover = Some(SelectedFile { name: "c.PNG".into(), path: "media/c.PNG".into(), size: 2 });
    ui.lyrics = Some(SelectedFile { name: "l.txt".into(), path: "media/l.txt".into(), size: 1 });
    let (track, assets) = local_import(&mut ui, 42).unwrap();
    assert_eq!(track.id, 42);
    assert_eq!(track.name, "Name");
    assert_eq!(track.artists, vec!["Singer".to_string()]);
    assert_eq!(assets.len(), 3);
    assert_eq!(assets[1].extension, Some("png"));
    assert_eq!(assets[2].format, Some("lrc"));
}

fn cloud(id: u64) -> CloudSong {
    CloudSong {
        id,
        name: format!("S{id}"),
        artists: vec!["A".into(), "B".into()],
        ..CloudSong::default()
    }
}

#[test]
fn cloud_search_and_choice() {
    let mut ui = UiState::default();
    assert!(begin_search(&mut ui).is_none());
    assert_eq!(ui.status, "请输入网易云搜索关键词。");
    ui.netease_query = "q".into();
    assert!(begin_search(&mut ui).is_some());
    finish_search(&mut ui, Ok(vec![cloud(1), cloud(2)]));
    assert_eq!(ui.status, "找到 2 首歌曲。");
    ui.netease_selected = 1;
    assert_eq!(cloud_choice(&mut ui).unwrap().id, 2);
    ui.netease_selected = 5;
    assert!(cloud_choice(&mut ui).is_none());
    assert_eq!(ui.status, "请先搜索并选择歌曲。");
    assert_eq!(cloud_song_label(&cloud(3)), "S3 — A / B");
}

#[test]
fn qr_poll_outcomes_update_the_screen() {
    let mut ui = UiState { qr_key: "k".into(), qr_url: "u".into(), ..UiState::default() };
    finish_qr_poll(&mut ui, Ok(None));
    assert_eq!(ui.status, "等待扫码或手机确认…");
    finish_qr_poll(&mut ui, Ok(Some("MUSIC_U=1".into())));
    assert_eq!(ui.netease_cookie, "MUSIC_U=1");
    assert!(ui.qr_key.is_empty() && ui.qr_url.is_empty());
    assert_eq!(ui.status, "网易云登录成功。");
}

#[test]
fn progress_in_percent() {
    assert_eq!(progress_percent(5, 0), None);
    assert_eq!(progress_percent(1, 3), Some(33));
    assert_eq!(progress_percent(u64::MAX, u64::MAX), Some(1));
    assert_eq!(progress_percent(u64::MAX / 50, u64::MAX), Some(1));
}

#[test]
fn screen_shows_qr_results_progress_and_cancel() {
    let mut ui = UiState::default();
    let plain = screen(&ui, "音频：未选择", "封面：未选择", "歌词：未选择");
    assert_eq!(plain.header.len(), 5);
    assert_eq!(plain.local.len(), 12);
    assert_eq!(plain.cloud.len(), 5);
    assert_eq!(plain.footer.len(), 1);
    ui.qr_url = "u".into();
    ui.netease_results = vec![cloud(1)];
    ui.total = 4;
    ui.sent = 1;
    ui.active = true;
    let full = screen(&ui, "a", "b", "c");
    assert_eq!(full.cloud.len(), 9);
    assert!(matches!(full.footer[0], Widget::Progress { value: 25, max: 100 }));
    assert!(matches!(full.footer[2], Widget::Button { label: "取消导入", .. }));
    let Widget::Select { options, .. } = &full.cloud[7] else {
        panic!("expected song choice");
    };
    assert_eq!(options, &vec![("S1 — A / B".to_string(), "0".to_string())]);
}
