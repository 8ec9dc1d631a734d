use lyra_player::api::{
    artist_albums, artist_detail, artist_songs, daily_playlists, daily_songs, login_status, lyric,
    playlist_detail, playlist_tracks, qr_check, qr_key, search_artists, song_url, user_playlists,
};
use lyra_player::api::{choose_playlists, choose_songs};
use lyra_player::model::{Playlist, Song};
use serde_json::Value;
use lyra_player::api::choose_qr_key;
use lyra_player::api::choose_song_url;
use lyra_player::api::ensure_ok;
use lyra_player::api::{qr_url, search_songs, ApiError, QrCheck};

#[test]
fn endpoints_encrypt_posts_and_attach_cookie() {
    let request = search_songs("宇多田 ヒカル", 20, Some("MUSIC_U=abc"));
    assert_eq!(request.method, "POST");
    assert_eq!(request.url, "https://interfacepc.music.163.com/eapi/search/get");
    assert!(request.body.as_deref().unwrap_or("").starts_with("params="));
    assert!(request
        .headers
        .iter()
        .any(|(key, value)| key == "Cookie" && value == "MUSIC_U=abc"));
    assert!(!request.body.as_deref().unwrap_or("").contains("宇多田"));
}

#[test]
fn qr_url_is_local_and_encoded() {
    assert_eq!(qr_url("a+b"), "https://music.163.com/login?codekey=a%2Bb");
}

#[test]
fn search_without_cookie_sends_no_cookie_header() {
    let request = search_songs("x", 0, None);
    assert!(!request.headers.iter().any(|(key, _)| key == "Cookie"));
    let params = request.body.unwrap();
    // upper-case hex of whole AES blocks
    let hex = &params["params=".len()..];
    assert_eq!(hex.len() % 32, 0);
    assert!(hex.chars().all(|c| c.is_ascii_digit() || ('A'..='F').contains(&c)));
}

#[test]
fn same_search_gives_same_request() {
    let a = search_songs("song", 40, Some("c"));
    let b = search_songs("song", 40, Some("c"));
    assert_eq!(a, b);
    let c = search_songs("song", 60, Some("c"));
    assert_ne!(a.body, c.body);
}

#[test]
fn qr_key_comes_from_top_level_or_data() {
    assert_eq!(
        choose_qr_key(200, String::new(), Some("key-1".to_string())),
        Ok("key-1".to_string())
    );
    assert_eq!(choose_qr_key(200, "key-2".to_string(), None), Ok("key-2".to_string()));
    assert_eq!(choose_qr_key(200, String::new(), None), Err(ApiError::Missing));
    assert_eq!(choose_qr_key(502, "key".to_string(), None), Err(ApiError::Server(502)));
}

#[test]
fn song_url_comes_from_first_item() {
    assert_eq!(
        choose_song_url(200, Some((Some("https://a/song.mp3".to_string()), String::new()))),
        Ok("https://a/song.mp3".to_string())
    );
    assert_eq!(choose_song_url(404, None), Err(ApiError::Server(404)));
}

#[test]
fn qr_check_codes_are_accepted() {
    assert_eq!(ensure_ok(200), Ok(()));
    assert_eq!(ensure_ok(803), Ok(()));
    assert_eq!(ensure_ok(-460), Err(ApiError::Server(-460)));
    let check = QrCheck { code: 801, cookie: None };
    assert_eq!(check.code, 801);
}

fn code(v: &Value) -> i32 {
    v["code"].as_i64().unwrap() as i32
}

fn text(v: &Value) -> Option<String> {
    v.as_str().map(str::to_string)
}

#[test]
fn direct_shapes_parse_without_node_envelopes() {
    let v: Value = serde_json::from_str(r#"{"code":200,"recommend":[{"id":1,"name":"Daily"}]}"#).unwrap();
    let recommend = v["recommend"]
        .as_array()
        .unwrap()
        .iter()
        .map(|p| Playlist { id: p["id"].as_u64().unwrap(), name: text(&p["name"]).unwrap(), ..Playlist::default() })
        .collect();
    let playlists = choose_playlists(code(&v), Vec::new(), recommend).unwrap();
    assert_eq!(playlists[0].name, "Daily");
    let v: Value =
        serde_json::from_str(r#"{"code":200,"playlist":{"tracks":[{"id":2,"name":"Track"}]}}"#).unwrap();
    let tracks = v["playlist"]["tracks"]
        .as_array()
        .unwrap()
        .iter()
        .map(|s| Song { id: s["id"].as_u64().unwrap(), name: text(&s["name"]).unwrap(), ..Song::default() })
        .collect();
    let songs = choose_songs(code(&v), Vec::new(), Some(tracks)).unwrap();
    assert_eq!(songs[0].name, "Track");
}

#[test]
fn parses_login_and_song_url() {
    let v: Value = serde_json::from_str(r#"{"code":200,"data":{"unikey":"key-1"}}"#).unwrap();
    assert_eq!(
        choose_qr_key(code(&v), text(&v["unikey"]).unwrap_or_default(), text(&v["data"]["unikey"])).unwrap(),
        "key-1"
    );
    let v: Value = serde_json::from_str(r#"{"code":200,"unikey":"key-2"}"#).unwrap();
    assert_eq!(
        choose_qr_key(code(&v), text(&v["unikey"]).unwrap_or_default(), text(&v["data"]["unikey"])).unwrap(),
        "key-2"
    );
    let v: Value = serde_json::from_str(r#"{"code":200,"data":[{"url":"https://a/song.mp3"}]}"#).unwrap();
    let first = &v["data"][0];
    assert_eq!(
        choose_song_url(code(&v), Some((text(&first["url"]), text(&first["proxyUrl"]).unwrap_or_default())))
            .unwrap(),
        "https://a/song.mp3"
    );
}

#[test]
fn endpoints_post_to_their_paths() {
    let base = "https://interfacepc.music.163.com/eapi/";
    let cases = [
        (qr_key(), "login/qrcode/unikey"),
        (qr_check("k", 1), "login/qrcode/client/login"),
        (login_status("c", 1), "w/nuser/account/get"),
        (user_playlists(7, 0, "c"), "user/playlist"),
        (daily_playlists("c", 1), "v1/discovery/recommend/resource"),
        (daily_songs("c", 1), "v3/discovery/recommend/songs"),
        (playlist_detail(3, "c", 1), "v6/playlist/detail"),
        (playlist_tracks(3, 20, "c"), "v6/playlist/detail"),
        (song_url(3, "c", 1), "song/enhance/player/url"),
        (lyric(3, "c", 1), "song/lyric/v1"),
        (search_artists("a", 0, None), "search/get"),
        (artist_detail(5, None), "artist/head/info/get"),
        (artist_songs(5, 0, None), "v1/artist/songs"),
        (artist_albums(5, 0, None), "artist/albums/5"),
    ];
    for (request, path) in cases {
        assert_eq!(request.method, "POST");
        assert_eq!(request.url, format!("{base}{path}"));
        assert!(request.body.as_deref().unwrap_or("").starts_with("params="));
    }
    assert!(login_status("MUSIC_U=1", 1).headers.iter().any(|(k, v)| k == "Cookie" && v == "MUSIC_U=1"));
    assert!(!qr_key().headers.iter().any(|(k, _)| k == "Cookie"));
}

#[test]
fn pages_of_a_playlist_differ() {
    assert_ne!(playlist_tracks(3, 0, "c").body, playlist_tracks(3, 20, "c").body);
}

#[test]
fn qr_key_request_has_the_known_encrypted_body() {
    // AES-128-ECB of "<path>-36cd479b6b5-<json>-36cd479b6b5-<md5>" under the eapi key
    let expected = "params=1CA81A97B7BAEB099F29A9B99A25CD6E58E7BA5B35F25231033065C776830C0A7884E39C875E9496A0FEDF57791F32E9BDBF05A8F0CB88A280A6E0CBC61C32C8D75FA84D236D68651F38512CA13AFE48764EC08C408D7EA7019A93FB1849726C3E411DF06285FD389632E73C37EAB48514B05B12498784C316601EA8623B63CDF40A084E3557260E37D9E3436578C9272E44A9DABEFA3779619A1E403A819AF9BB0B520B36F7B62359FB9EB25282CC53CA24C2C1622B4896C6FBE92B29EC7F7983C0C4BB033471650C2FB0072977C78A7D5B02C2D54BF851D66F43E332B3FEEB40F61D8A7D398038F71678E509333287C318C94A098954692B0DD3A63AC4AFDB8517542DCE608383076FD6CD232D89AFE644B51BD3B74A455770233CE40580D924DAB1F797DC1B6CE51BBF0766419B90CB12692D20F14814A25C7CCF42063986";
    assert_eq!(qr_key().body.as_deref(), Some(expected));
}

#[test]
fn eapi_bodies_hold_whole_blocks_of_upper_case_hex() {
    for request in [
        qr_key(),
        search_songs("宇多田 ヒカル", 20, Some("MUSIC_U=abc")),
        playlist_tracks(3, 20, "c"),
    ] {
        let body = request.body.unwrap();
        let hex = body.strip_prefix("params=").unwrap();
        assert!(!hex.is_empty());
        assert_eq!(hex.len() % 32, 0);
        assert!(hex.chars().all(|c| c.is_ascii_digit() || ('A'..='F').contains(&c)));
    }
}
