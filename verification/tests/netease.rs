use lyra_player::plugin::netease::{
    check_http_status, cloud_song, count_download, eapi, finish_download, keeps_lyrics, prepared,
    wants_cover,
    qr_login_key, qr_poll, search_request, search_result, song_download_url, url_encode,
    AlbumWire, ArtistWire, SongUrlData, SongWire, MAX_AUDIO_BYTES,
};

#[test]
fn eapi_encrypts_search_and_attaches_cookie() {
    let request = eapi(
        "/api/search/get",
        vec![("s".to_string(), "测试".to_string())],
        vec![("type".to_string(), 1)],
        Vec::new(),
        "MUSIC_U=abc",
        1,
    );
    assert_eq!(request.url, "https://interfacepc.music.163.com/eapi/search/get");
    let body = request.body.unwrap();
    assert!(body.starts_with("params="));
    assert!(!body.contains("测试"));
    assert!(request
        .headers
        .iter()
        .any(|(name, value)| name == "Cookie" && value == "MUSIC_U=abc"));
}

#[test]
fn cookie_is_trimmed_and_blank_cookie_dropped() {
    let request = search_request("x", "  MUSIC_U=abc\n", 5);
    assert!(request
        .headers
        .iter()
        .any(|(name, value)| name == "Cookie" && value == "MUSIC_U=abc"));
    let request = search_request("x", " \t ", 5);
    assert!(!request.headers.iter().any(|(name, _)| name == "Cookie"));
}

#[test]
fn search_shape_maps_cover_and_metadata() {
    let wire = SongWire {
        id: 7,
        name: "Track".into(),
        ar: vec![ArtistWire { name: "Artist".into() }],
        al: AlbumWire { id: 8, name: "Album".into(), pic_url: "https://cover".into() },
        dt: 1234,
    };
    let song = cloud_song(wire.clone());
    assert_eq!(song.id, 7);
    assert_eq!(song.cover_url, "https://cover");
    assert_eq!(song.duration_ms, 1234);
    assert_eq!(song.artists, vec!["Artist".to_string()]);
    let songs = search_result(Ok((200, vec![wire]))).unwrap();
    assert_eq!(songs.len(), 1);
    assert_eq!(songs[0].album_id, 8);
    assert_eq!(search_result(Ok((-1, Vec::new()))).err(), Some("网易云搜索失败：-1".to_string()));
    assert_eq!(search_result(Err("eof".into())).err(), Some("无法解析搜索结果：eof".to_string()));
}

#[test]
fn qr_login_key_and_link() {
    let (key, url) = qr_login_key(Ok((200, String::new(), Some("a+b".into())))).unwrap();
    assert_eq!(key, "a+b");
    assert_eq!(url, "https://music.163.com/login?codekey=a%2Bb");
    assert_eq!(
        qr_login_key(Ok((200, String::new(), None))).err(),
        Some("网易云未返回二维码 key".to_string())
    );
    assert_eq!(
        qr_login_key(Ok((400, "k".into(), None))).err(),
        Some("二维码登录初始化失败：400".to_string())
    );
}

#[test]
fn qr_poll_codes() {
    assert_eq!(qr_poll(Ok((800, None))).err(), Some("二维码已过期，请重新生成".to_string()));
    assert_eq!(qr_poll(Ok((801, None))), Ok(None));
    assert_eq!(qr_poll(Ok((802, None))), Ok(None));
    assert_eq!(qr_poll(Ok((803, Some("MUSIC_U=x".into())))), Ok(Some("MUSIC_U=x".to_string())));
    assert_eq!(
        qr_poll(Ok((803, Some(String::new())))).err(),
        Some("登录成功但未返回 Cookie".to_string())
    );
    assert_eq!(qr_poll(Ok((500, None))).err(), Some("扫码登录失败：500".to_string()));
}

#[test]
fn download_address_prefers_proxy() {
    let item = |url: Option<&str>, proxy: &str| SongUrlData {
        url: url.map(str::to_string),
        proxy_url: proxy.to_string(),
    };
    assert_eq!(
        song_download_url(Ok((200, vec![item(Some("https://a"), "https://p")]))),
        Ok("https://p".to_string())
    );
    assert_eq!(song_download_url(Ok((200, vec![item(Some("https://a"), "")]))), Ok("https://a".to_string()));
    assert_eq!(
        song_download_url(Ok((200, vec![item(None, "")]))).err(),
        Some("歌曲因版权或区域限制无法下载".to_string())
    );
    assert_eq!(
        song_download_url(Ok((200, Vec::new()))).err(),
        Some("网易云未返回歌曲地址".to_string())
    );
}

#[test]
fn downloads_are_bounded_and_non_empty() {
    assert_eq!(check_http_status("下载 HTTP ", 200), Ok(()));
    assert_eq!(check_http_status("下载 HTTP ", 404).err(), Some("下载 HTTP 404".to_string()));
    assert_eq!(count_download(10, 5, 20), Ok(15));
    assert_eq!(count_download(MAX_AUDIO_BYTES, 1, MAX_AUDIO_BYTES).err(), Some("下载内容超过导入上限".to_string()));
    assert_eq!(count_download(u64::MAX, 1, u64::MAX), Ok(u64::MAX));
    assert_eq!(finish_download(0).err(), Some("下载内容为空".to_string()));
    assert_eq!(finish_download(3), Ok(3));
    assert!(keeps_lyrics(2 * 1024 * 1024));
    assert!(!keeps_lyrics(2 * 1024 * 1024 + 1));
}

#[test]
fn prepared_song_lists_its_files() {
    let song = cloud_song(SongWire {
        id: 1,
        name: "n".into(),
        ar: Vec::new(),
        al: AlbumWire { id: 0, name: String::new(), pic_url: String::new() },
        dt: 0,
    });
    let p = prepared(song, ("media/a.mp3".into(), 10), None, Some(("media/l.json".into(), 4)));
    assert_eq!(p.assets.len(), 2);
    assert_eq!(p.assets[0].kind, "audio");
    assert_eq!(p.assets[1].kind, "lyrics");
    assert_eq!(p.assets[1].format, Some("json"));
    assert_eq!(url_encode("a b"), "a%20b");
}

#[test]
fn cover_is_wanted_only_with_a_url_and_a_failed_one_is_skipped() {
    let mut song = cloud_song(SongWire {
        id: 2,
        name: "n".into(),
        ar: Vec::new(),
        al: AlbumWire { id: 0, name: String::new(), pic_url: String::new() },
        dt: 0,
    });
    assert!(!wants_cover(&song));
    song.cover_url = "https://p.example/c.jpg".into();
    assert!(wants_cover(&song));
    let failed = prepared(
        song.clone(),
        ("media/a.mp3".into(), 10),
        Some(Err("封面下载失败".into())),
        None,
    );
    assert_eq!(failed.assets.len(), 1);
    let kept = prepared(song, ("media/a.mp3".into(), 10), Some(Ok(("media/c.jpg".into(), 7))), None);
    assert_eq!(kept.assets.len(), 2);
    assert_eq!(kept.assets[1].kind, "cover");
    assert_eq!(kept.assets[1].size, 7);
    assert_eq!(kept.assets[1].extension, Some("jpg"));
}
