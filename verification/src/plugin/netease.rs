//! The plugin's side of the cloud music service: its eapi requests, and the
//! decisions taken on the decoded answers (search, QR login, song download).
use vstd::prelude::*;

use crate::api::{eapi_body_len, eapi_from, eapi_request_from, eapi_text, ApiRequest, ApiRequestView};
use crate::plugin::import::{
    assets_start_ok, is_audio, is_cover, is_lyrics, kinds_known, size_limit, ImportAsset,
};
use crate::plugin::state::CloudSong;
use crate::text::{decimal, percent_encode, percent_encoded, push_decimal, trim, trimmed};
use vstd::string::StringSliceAdditionalSpecFns;

verus! {

/// The device that the plugin's requests name.
pub open spec fn plugin_device() -> Seq<char> {
    "astrobox-lyra-import"@
}

/// The largest audio file a download may give.
pub const MAX_AUDIO_BYTES: u64 = 64 * 1024 * 1024;

/// The largest cover image a download may give.
pub const MAX_COVER_BYTES: u64 = 4 * 1024 * 1024;

/// The largest lyrics answer that is imported.
pub const MAX_LYRICS_BYTES: usize = 2 * 1024 * 1024;

/// The request that the plugin sends to `path`; the cookie is trimmed and sent
/// only when something is left.
pub open spec fn plugin_request(
    path: Seq<char>,
    strings: Seq<(Seq<char>, Seq<char>)>,
    numbers: Seq<(Seq<char>, u64)>,
    flags: Seq<(Seq<char>, bool)>,
    cookie: Seq<char>,
    nonce: u64,
) -> ApiRequestView {
    eapi_request_from(path, strings, numbers, flags, Some(trimmed(cookie)), nonce, plugin_device())
}

/// An eapi request of the plugin to `path`, signed with the millisecond clock `nonce`.
pub fn eapi(
    path: &str,
    strings: Vec<(String, String)>,
    numbers: Vec<(String, u64)>,
    flags: Vec<(String, bool)>,
    cookie: &str,
    nonce: u64,
) -> (r: ApiRequest)
    ensures
        r@ == plugin_request(
            path@,
            strings.deep_view(),
            numbers.deep_view(),
            flags.deep_view(),
            cookie@,
            nonce,
        ),
        r@.body matches Some(b) && b.len() == eapi_body_len(
            path@,
            eapi_text(
                strings.deep_view(),
                numbers.deep_view(),
                flags.deep_view(),
                nonce,
                plugin_device(),
            ),
        ),
{
    eapi_from(path, strings, numbers, flags, Some(trim(cookie)), nonce, "astrobox-lyra-import")
}

fn text_pair(key: &str, value: &str) -> (r: (String, String))
    ensures
        r.0@ == key@,
        r.1@ == value@,
{
    (String::from_str(key), String::from_str(value))
}

fn number_pair(key: &str, value: u64) -> (r: (String, u64))
    ensures
        r.0@ == key@,
        r.1 == value,
{
    (String::from_str(key), value)
}

/// The search for songs matching `query`: twenty songs from the first.
pub fn search_request(query: &str, cookie: &str, nonce: u64) -> (r: ApiRequest)
    ensures
        r@ == plugin_request(
            "/api/search/get"@,
            seq![("s"@, query@)],
            seq![("type"@, 1u64), ("limit"@, 20u64), ("offset"@, 0u64)],
            seq![],
            cookie@,
            nonce,
        ),
{
    let strings = vec![text_pair("s", query)];
    let numbers = vec![number_pair("type", 1), number_pair("limit", 20), number_pair("offset", 0)];
    let flags: Vec<(String, bool)> = Vec::new();
    assert(strings.deep_view() =~= seq![("s"@, query@)]);
    assert(numbers.deep_view() =~= seq![("type"@, 1u64), ("limit"@, 20u64), ("offset"@, 0u64)]);
    assert(flags.deep_view() =~= seq![]);
    eapi("/api/search/get", strings, numbers, flags, cookie, nonce)
}

/// The request for a new QR login key.
pub fn qr_key_request(nonce: u64) -> (r: ApiRequest)
    ensures
        r@ == plugin_request(
            "/api/login/qrcode/unikey"@,
            seq![],
            seq![("type"@, 3u64)],
            seq![],
            Seq::empty(),
            nonce,
        ),
{
    let strings: Vec<(String, String)> = Vec::new();
    let numbers = vec![number_pair("type", 3)];
    let flags: Vec<(String, bool)> = Vec::new();
    let none = String::new();
    assert(strings.deep_view() =~= seq![]);
    assert(numbers.deep_view() =~= seq![("type"@, 3u64)]);
    assert(flags.deep_view() =~= seq![]);
    eapi("/api/login/qrcode/unikey", strings, numbers, flags, none.as_str(), nonce)
}

/// The request for the state of the QR login `key`.
pub fn qr_check_request(key: &str, nonce: u64) -> (r: ApiRequest)
    ensures
        r@ == plugin_request(
            "/api/login/qrcode/client/login"@,
            seq![("key"@, key@)],
            seq![("type"@, 3u64)],
            seq![],
            Seq::empty(),
            nonce,
        ),
{
    let strings = vec![text_pair("key", key)];
    let numbers = vec![number_pair("type", 3)];
    let flags: Vec<(String, bool)> = Vec::new();
    let none = String::new();
    assert(strings.deep_view() =~= seq![("key"@, key@)]);
    assert(numbers.deep_view() =~= seq![("type"@, 3u64)]);
    assert(flags.deep_view() =~= seq![]);
    eapi("/api/login/qrcode/client/login", strings, numbers, flags, none.as_str(), nonce)
}

/// The id list of one song as the song-url endpoint reads it: `["<id>"]`.
pub open spec fn song_ids_text(id: u64) -> Seq<char> {
    "[\""@ + decimal(id as nat) + "\"]"@
}

/// The request for the download address of a song at 320 kbit/s.
pub fn song_url_request(id: u64, cookie: &str, nonce: u64) -> (r: ApiRequest)
    ensures
        r@ == plugin_request(
            "/api/song/enhance/player/url"@,
            seq![("ids"@, song_ids_text(id))],
            seq![("br"@, 320000u64)],
            seq![],
            cookie@,
            nonce,
        ),
{
    let mut ids = String::from_str("[\"");
    push_decimal(&mut ids, id);
    ids.append("\"]");
    let ghost ids_view = ids@;
    let strings = vec![(String::from_str("ids"), ids)];
    let numbers = vec![number_pair("br", 320000)];
    let flags: Vec<(String, bool)> = Vec::new();
    assert(strings.deep_view() =~= seq![("ids"@, song_ids_text(id))]);
    assert(numbers.deep_view() =~= seq![("br"@, 320000u64)]);
    assert(flags.deep_view() =~= seq![]);
    eapi("/api/song/enhance/player/url", strings, numbers, flags, cookie, nonce)
}

/// The request for the lyrics of a song, with no translation or karaoke parts.
pub fn lyric_request(id: u64, cookie: &str, nonce: u64) -> (r: ApiRequest)
    ensures
        r@ == plugin_request(
            "/api/song/lyric/v1"@,
            seq![],
            seq![
                ("id"@, id),
                ("tv"@, 0u64),
                ("lv"@, 0u64),
                ("rv"@, 0u64),
                ("kv"@, 0u64),
                ("yv"@, 0u64),
                ("ytv"@, 0u64),
                ("yrv"@, 0u64),
            ],
            seq![("cp"@, false)],
            cookie@,
            nonce,
        ),
{
    let strings: Vec<(String, String)> = Vec::new();
    let numbers = vec![
        number_pair("id", id),
        number_pair("tv", 0),
        number_pair("lv", 0),
        number_pair("rv", 0),
        number_pair("kv", 0),
        number_pair("yv", 0),
        number_pair("ytv", 0),
        number_pair("yrv", 0),
    ];
    let flags = vec![(String::from_str("cp"), false)];
    assert(strings.deep_view() =~= seq![]);
    assert(numbers.deep_view() =~= seq![
        ("id"@, id),
        ("tv"@, 0u64),
        ("lv"@, 0u64),
        ("rv"@, 0u64),
        ("kv"@, 0u64),
        ("yv"@, 0u64),
        ("ytv"@, 0u64),
        ("yrv"@, 0u64),
    ]);
    assert(flags.deep_view() =~= seq![("cp"@, false)]);
    eapi("/api/song/lyric/v1", strings, numbers, flags, cookie, nonce)
}

/// Percent-encoding of the UTF-8 bytes of `input`, as in a URL query.
pub fn url_encode(input: &str) -> (r: String)
    ensures
        r@ == percent_encoded(input.spec_bytes()),
{
    percent_encode(input)
}

/// An artist as the search answer gives it.
#[derive(Clone, Debug)]
pub struct ArtistWire {
    pub name: String,
}

/// An album as the search answer gives it; each member defaults to empty.
#[derive(Clone, Debug)]
pub struct AlbumWire {
    pub id: u64,
    pub name: String,
    pub pic_url: String,
}

/// A song as the search answer gives it.
#[derive(Clone, Debug)]
pub struct SongWire {
    pub id: u64,
    pub name: String,
    pub ar: Vec<ArtistWire>,
    pub al: AlbumWire,
    pub dt: u32,
}

/// The names of a list of artists.
pub open spec fn artist_names(ar: Seq<ArtistWire>) -> Seq<String> {
    ar.map_values(|a: ArtistWire| a.name)
}

/// The cloud song that a search answer describes.
pub fn cloud_song(song: SongWire) -> (r: CloudSong)
    ensures
        r.id == song.id,
        r.name == song.name,
        r.artists@ == artist_names(song.ar@),
        r.album == song.al.name,
        r.album_id == song.al.id,
        r.duration_ms == song.dt,
        r.cover_url == song.al.pic_url,
{
    let SongWire { id, name, ar, al, dt } = song;
    let mut artists: Vec<String> = Vec::new();
    let mut i: usize = 0;
    while i < ar.len()
        invariant
            i <= ar@.len(),
            artists@ == artist_names(ar@).take(i as int),
        decreases ar@.len() - i,
    {
        artists.push(ar[i].name.clone());
        i = i + 1;
        assert(artists@ =~= artist_names(ar@).take(i as int));
    }
    assert(artist_names(ar@).take(ar@.len() as int) =~= artist_names(ar@));
    CloudSong {
        id,
        name,
        artists,
        album: al.name,
        album_id: al.id,
        duration_ms: dt,
        cover_url: al.pic_url,
    }
}

/// `prefix` followed by a status code in decimal, with its sign.
pub open spec fn with_code(prefix: Seq<char>, code: i32) -> Seq<char> {
    if code < 0 {
        prefix + "-"@ + decimal((-code) as nat)
    } else {
        prefix + decimal(code as nat)
    }
}

/// `prefix` followed by a status code.
pub fn code_message(prefix: &str, code: i32) -> (r: String)
    ensures
        r@ == with_code(prefix@, code),
{
    let mut s = String::from_str(prefix);
    if code < 0 {
        s.append("-");
        let magnitude: u64 = if code == i32::MIN {
            2147483648
        } else {
            (-code) as u64
        };
        push_decimal(&mut s, magnitude);
    } else {
        push_decimal(&mut s, code as u64);
    }
    s
}

/// `prefix` followed by an error text.
fn prefixed(prefix: &str, error: &str) -> (r: String)
    ensures
        r@ == prefix@ + error@,
{
    let mut s = String::from_str(prefix);
    s.append(error);
    s
}

/// The songs of a decoded search answer: `answer` is its code and songs, or
/// why it could not be read.
pub fn search_result(answer: Result<(i32, Vec<SongWire>), String>) -> (r: Result<Vec<CloudSong>, String>)
    ensures
        match answer {
            Err(e) => (r matches Err(m) && m@ == "无法解析搜索结果："@ + e@),
            Ok((code, songs)) => if code != 200 {
                r matches Err(m) && m@ == with_code("网易云搜索失败："@, code)
            } else {
                r matches Ok(v) && v@.len() == songs@.len() && forall|i: int|
                    0 <= i < songs@.len() ==> #[trigger] v@[i].id == songs@[i].id && v@[i].name
                        == songs@[i].name && v@[i].artists@ == artist_names(songs@[i].ar@)
                        && v@[i].album == songs@[i].al.name && v@[i].album_id == songs@[i].al.id
                        && v@[i].duration_ms == songs@[i].dt && v@[i].cover_url
                        == songs@[i].al.pic_url
            },
        },
{
    let (code, songs) = match answer {
        Err(e) => {
            return Err(prefixed("无法解析搜索结果：", e.as_str()));
        },
        Ok(v) => v,
    };
    if code != 200 {
        return Err(code_message("网易云搜索失败：", code));
    }
    let ghost all = songs@;
    let mut rest = songs;
    let mut out: Vec<CloudSong> = Vec::new();
    while rest.len() > 0
        invariant
            out@.len() + rest@.len() == all.len(),
            rest@ == all.skip(out@.len() as int),
            forall|j: int|
                0 <= j < out@.len() ==> #[trigger] out@[j].id == all[j].id && out@[j].name
                    == all[j].name && out@[j].artists@ == artist_names(all[j].ar@)
                    && out@[j].album == all[j].al.name && out@[j].album_id == all[j].al.id
                    && out@[j].duration_ms == all[j].dt && out@[j].cover_url == all[j].al.pic_url,
        decreases rest@.len(),
    {
        let song = rest.remove(0);
        assert(song == all[out@.len() as int]);
        out.push(cloud_song(song));
        assert(rest@ =~= all.skip(out@.len() as int));
    }
    Ok(out)
}

/// The message of a QR link: the login page with the percent-encoded key.
pub open spec fn qr_login_url(key: Seq<char>) -> Seq<char> {
    "https://music.163.com/login?codekey="@ + percent_encoded(vstd::utf8::encode_utf8(key))
}

/// The key and link of a new QR login from a decoded answer: its code, its
/// top-level key and the key inside its data, or why it could not be read.
pub fn qr_login_key(answer: Result<(i32, String, Option<String>), String>) -> (r: Result<(String, String), String>)
    ensures
        match answer {
            Err(e) => (r matches Err(m) && m@ == "无法解析二维码登录响应："@ + e@),
            Ok((code, unikey, data)) => {
                let key = if unikey@.len() > 0 {
                    unikey@
                } else {
                    match data {
                        Some(d) => d@,
                        None => Seq::empty(),
                    }
                };
                if code != 200 {
                    r matches Err(m) && m@ == with_code("二维码登录初始化失败："@, code)
                } else if key.len() == 0 {
                    r matches Err(m) && m@ == "网易云未返回二维码 key"@
                } else {
                    r matches Ok((k, url)) && k@ == key && url@ == qr_login_url(key)
                }
            },
        },
{
    let (code, unikey, data) = match answer {
        Err(e) => {
            return Err(prefixed("无法解析二维码登录响应：", e.as_str()));
        },
        Ok(v) => v,
    };
    if code != 200 {
        return Err(code_message("二维码登录初始化失败：", code));
    }
    let key = if unikey.unicode_len() > 0 {
        unikey
    } else {
        match data {
            Some(d) => d,
            None => String::new(),
        }
    };
    if key.unicode_len() == 0 {
        return Err(String::from_str("网易云未返回二维码 key"));
    }
    let mut url = String::from_str("https://music.163.com/login?codekey=");
    let encoded = url_encode(key.as_str());
    url.append(encoded.as_str());
    Ok((key, url))
}

/// What a poll of a QR login says: expired, waiting (`None`), or logged in
/// with a cookie.
pub open spec fn qr_poll_outcome(code: i32, cookie: Option<Seq<char>>) -> Result<Option<Seq<char>>, Seq<char>> {
    if code == 800 {
        Err("二维码已过期，请重新生成"@)
    } else if code == 801 || code == 802 {
        Ok(None)
    } else if code == 803 {
        match cookie {
            Some(c) => if c.len() > 0 {
                Ok(Some(c))
            } else {
                Err("登录成功但未返回 Cookie"@)
            },
            None => Err("登录成功但未返回 Cookie"@),
        }
    } else {
        Err(with_code("扫码登录失败："@, code))
    }
}

/// Decides a poll of a QR login from its decoded answer: its code and
/// cookie, or why it could not be read.
pub fn qr_poll(answer: Result<(i32, Option<String>), String>) -> (r: Result<Option<String>, String>)
    ensures
        match answer {
            Err(e) => (r matches Err(m) && m@ == "无法解析扫码状态："@ + e@),
            Ok((code, cookie)) => match qr_poll_outcome(code, crate::model::opt_string_view(cookie)) {
                Ok(None) => r matches Ok(None),
                Ok(Some(c)) => (r matches Ok(Some(v)) && v@ == c),
                Err(m) => (r matches Err(x) && x@ == m),
            },
        },
{
    let (code, cookie) = match answer {
        Err(e) => {
            return Err(prefixed("无法解析扫码状态：", e.as_str()));
        },
        Ok(v) => v,
    };
    if code == 800 {
        Err(String::from_str("二维码已过期，请重新生成"))
    } else if code == 801 || code == 802 {
        Ok(None)
    } else if code == 803 {
        match cookie {
            Some(c) => {
                if c.unicode_len() > 0 {
                    Ok(Some(c))
                } else {
                    Err(String::from_str("登录成功但未返回 Cookie"))
                }
            },
            None => Err(String::from_str("登录成功但未返回 Cookie")),
        }
    } else {
        Err(code_message("扫码登录失败：", code))
    }
}

/// One entry of the song-url answer.
#[derive(Clone, Debug)]
pub struct SongUrlData {
    pub url: Option<String>,
    pub proxy_url: String,
}

/// The address to download a song from: the proxy address where there is one,
/// else the plain address, else nothing.
pub open spec fn download_address(item: SongUrlData) -> Seq<char> {
    if item.proxy_url@.len() > 0 {
        item.proxy_url@
    } else {
        match item.url {
            Some(u) => u@,
            None => Seq::empty(),
        }
    }
}

/// The download address of a song from the decoded song-url answer: its code
/// and entries, or why it could not be read.
pub fn song_download_url(answer: Result<(i32, Vec<SongUrlData>), String>) -> (r: Result<String, String>)
    ensures
        match answer {
            Err(e) => (r matches Err(m) && m@ == "无法解析歌曲地址："@ + e@),
            Ok((code, data)) => if code != 200 {
                r matches Err(m) && m@ == with_code("歌曲地址请求失败："@, code)
            } else if data@.len() == 0 {
                r matches Err(m) && m@ == "网易云未返回歌曲地址"@
            } else if download_address(data@[0]).len() == 0 {
                r matches Err(m) && m@ == "歌曲因版权或区域限制无法下载"@
            } else {
                r matches Ok(u) && u@ == download_address(data@[0])
            },
        },
{
    let (code, data) = match answer {
        Err(e) => {
            return Err(prefixed("无法解析歌曲地址：", e.as_str()));
        },
        Ok(v) => v,
    };
    if code != 200 {
        return Err(code_message("歌曲地址请求失败：", code));
    }
    if data.len() == 0 {
        return Err(String::from_str("网易云未返回歌曲地址"));
    }
    let item = &data[0];
    let url = if item.proxy_url.unicode_len() > 0 {
        item.proxy_url.clone()
    } else {
        match &item.url {
            Some(u) => u.clone(),
            None => String::new(),
        }
    };
    if url.unicode_len() == 0 {
        return Err(String::from_str("歌曲因版权或区域限制无法下载"));
    }
    Ok(url)
}

/// Checks an HTTP status: anything outside 200..300 fails with `prefix` and the status.
pub fn check_http_status(prefix: &str, status: u16) -> (r: Result<(), String>)
    ensures
        200 <= status < 300 ==> r is Ok,
        !(200 <= status < 300) ==> (r matches Err(m) && m@ == prefix@ + decimal(status as nat)),
{
    if 200 <= status && status < 300 {
        Ok(())
    } else {
        let mut s = String::from_str(prefix);
        push_decimal(&mut s, status as u64);
        Err(s)
    }
}

/// Counts a downloaded piece of `n` bytes into `total` (saturating); a download
/// past `limit` fails.
pub fn count_download(total: u64, n: usize, limit: u64) -> (r: Result<u64, String>)
    ensures
        ({
            let sum = if total + n > u64::MAX {
                u64::MAX as int
            } else {
                total + n
            };
            if sum > limit {
                r matches Err(m) && m@ == "下载内容超过导入上限"@
            } else {
                r == Ok::<u64, String>(sum as u64)
            }
        }),
{
    let sum = total.saturating_add(n as u64);
    if sum > limit {
        Err(String::from_str("下载内容超过导入上限"))
    } else {
        Ok(sum)
    }
}

/// Ends a download of `total` bytes: an empty one fails.
pub fn finish_download(total: u64) -> (r: Result<u64, String>)
    ensures
        total == 0 ==> (r matches Err(m) && m@ == "下载内容为空"@),
        total > 0 ==> r == Ok::<u64, String>(total),
{
    if total == 0 {
        Err(String::from_str("下载内容为空"))
    } else {
        Ok(total)
    }
}

/// Whether a lyrics answer of `len` bytes is imported.
pub fn keeps_lyrics(len: usize) -> (r: bool)
    ensures
        r == (len <= MAX_LYRICS_BYTES),
{
    len <= MAX_LYRICS_BYTES
}

/// A cloud song ready for import, with its downloaded files.
#[derive(Debug)]
pub struct PreparedCloud {
    pub song: CloudSong,
    pub assets: Vec<ImportAsset>,
}

/// Whether a song's cover is downloaded: only when it has a cover URL.
pub fn wants_cover(song: &CloudSong) -> (r: bool)
    ensures
        r == (song.cover_url@.len() > 0),
{
    song.cover_url.unicode_len() != 0
}

/// The files of a downloaded song: the audio, then the cover when its download
/// was tried and succeeded (a failed one is skipped), then the lyrics where
/// they were kept. The sizes are those the downloads were held to: audio and
/// cover not empty and within their limits, lyrics within theirs.
pub fn prepared(
    song: CloudSong,
    audio: (String, u64),
    cover: Option<Result<(String, u64), String>>,
    lyrics: Option<(String, u64)>,
) -> (r: PreparedCloud)
    requires
        0 < audio.1 <= MAX_AUDIO_BYTES,
        cover matches Some(Ok((_, n))) ==> 0 < n <= MAX_COVER_BYTES,
        lyrics matches Some((_, n)) ==> n <= MAX_LYRICS_BYTES,
    ensures
        r.song == song,
        r.assets@.len() == 1 + (if cover matches Some(Ok(_)) { 1int } else { 0 }) + (if lyrics is Some {
            1int
        } else {
            0
        }),
        is_audio(r.assets@[0], audio.0, audio.1),
        cover matches Some(Ok((p, n))) ==> is_cover(r.assets@[1], p, n, "jpg"@),
        lyrics matches Some((p, n)) ==> is_lyrics(r.assets@[r.assets@.len() - 1], p, n, "json"@),
        assets_start_ok(r.assets@),
        kinds_known(r.assets@),
        forall|i: int, j: int|
            0 <= i < j < r.assets@.len() ==> #[trigger] r.assets@[i].kind@ != #[trigger] r.assets@[j].kind@,
        forall|i: int|
            0 <= i < r.assets@.len() ==> #[trigger] r.assets@[i].size <= size_limit(r.assets@[i].kind@),
{
    proof {
        reveal_strlit("audio");
        reveal_strlit("cover");
        reveal_strlit("lyrics");
        assert("audio"@[0] != "cover"@[0]);
        assert("audio"@ != "lyrics"@ && "cover"@ != "lyrics"@);
    }
    let mut assets: Vec<ImportAsset> = Vec::new();
    assets.push(ImportAsset::audio(audio.0, audio.1));
    match cover {
        Some(Ok((p, n))) => assets.push(ImportAsset::cover(p, n, "jpg")),
        _ => {},
    }
    match lyrics {
        Some((p, n)) => assets.push(ImportAsset::lyrics(p, n, "json")),
        None => {},
    }
    PreparedCloud { song, assets }
}

} // verus!
