//! Requests to the cloud music service's encrypted API ("eapi"), and the
//! decisions taken on its decoded answers.
use vstd::prelude::*;

use crate::codec::{
    aes128_ecb_pkcs7, aes128_ecb_pkcs7_encrypt, json_object, json_object_text, md5, md5_digest,
};
use crate::model::{Playlist, Profile, Song};
use crate::text::{
    decimal, hex_lower_bytes, hex_upper_bytes, lemma_hex_upper_len, percent_encoded, push_decimal, push_hex_lower,
    push_hex_upper, push_percent_encoded, strip_all_prefix, trim_start_matches,
};
use vstd::string::StrSliceExecFns;
use vstd::string::StringSliceAdditionalSpecFns;

verus! {

pub const DEFAULT_API_BASE: &'static str = "https://interfacepc.music.163.com";

const EAPI_DELIMITER: &'static str = "-36cd479b6b5-";

const USER_AGENT: &'static str = "NeteaseMusic 9.0.90/5038 (iPhone; iOS 16.2; zh_CN)";

/// The key of the eapi encryption.
pub open spec fn eapi_key() -> Seq<u8> {
    seq![101u8, 56, 50, 99, 107, 101, 110, 104, 56, 100, 105, 99, 104, 101, 110, 56]
}

/// A request ready for the network.
#[derive(Clone, Debug, PartialEq, Eq)]
pub struct ApiRequest {
    pub url: String,
    pub method: &'static str,
    pub headers: Vec<(String, String)>,
    pub body: Option<String>,
}

/// The abstract value of an [`ApiRequest`].
pub struct ApiRequestView {
    pub url: Seq<char>,
    pub method: Seq<char>,
    pub headers: Seq<(Seq<char>, Seq<char>)>,
    pub body: Option<Seq<char>>,
}

impl View for ApiRequest {
    type V = ApiRequestView;

    open spec fn view(&self) -> ApiRequestView {
        ApiRequestView {
            url: self.url@,
            method: self.method@,
            headers: self.headers.deep_view(),
            body: crate::model::opt_string_view(self.body),
        }
    }
}

/// The UTF-8 bytes of a string.
pub open spec fn utf8(s: Seq<char>) -> Seq<u8> {
    vstd::utf8::encode_utf8(s)
}

/// The device header sent inside every eapi payload.
pub open spec fn device_header(nonce: u64, device_id: Seq<char>) -> Seq<(Seq<char>, Seq<char>)> {
    seq![
        ("osver"@, "16.2"@),
        ("deviceId"@, device_id),
        ("os"@, "iPhone OS"@),
        ("appver"@, "9.0.90"@),
        ("versioncode"@, "5038"@),
        ("buildver"@, "1700000000"@),
        ("resolution"@, "336x480"@),
        ("channel"@, "distribution"@),
        ("requestId"@, decimal(nonce as nat) + "_0000"@),
    ]
}

/// The JSON text of an eapi payload: the given members, `e_r: false` and the device header.
pub open spec fn eapi_text(
    strings: Seq<(Seq<char>, Seq<char>)>,
    numbers: Seq<(Seq<char>, u64)>,
    flags: Seq<(Seq<char>, bool)>,
    nonce: u64,
    device_id: Seq<char>,
) -> Seq<char> {
    json_object_text(
        strings,
        numbers,
        flags.push(("e_r"@, false)),
        "header"@,
        device_header(nonce, device_id),
    )
}

/// The signed payload: the path, the text and the MD5 of both.
pub open spec fn eapi_signed(path: Seq<char>, text: Seq<char>) -> Seq<char> {
    let digest = md5_digest(utf8("nobody"@ + path + "use"@ + text + "md5forencrypt"@));
    path + "-36cd479b6b5-"@ + text + "-36cd479b6b5-"@ + hex_lower_bytes(digest)
}

/// The `params` value: the signed payload, encrypted and in upper-case hex.
pub open spec fn eapi_params(path: Seq<char>, text: Seq<char>) -> Seq<char> {
    hex_upper_bytes(aes128_ecb_pkcs7(eapi_key(), utf8(eapi_signed(path, text))))
}

/// The length of an eapi body, `params=` and the hex of the ciphertext: PKCS#7
/// pads the signed payload to the next multiple of 16 bytes above its length,
/// and each byte takes two hex digits.
pub open spec fn eapi_body_len(path: Seq<char>, text: Seq<char>) -> nat {
    7 + 32 * (utf8(eapi_signed(path, text)).len() / 16 + 1)
}

/// The headers of an eapi request, with the cookie when there is one.
pub open spec fn eapi_headers(cookie: Option<Seq<char>>) -> Seq<(Seq<char>, Seq<char>)> {
    let base = seq![
        ("Content-Type"@, "application/x-www-form-urlencoded"@),
        ("User-Agent"@, "NeteaseMusic 9.0.90/5038 (iPhone; iOS 16.2; zh_CN)"@),
    ];
    match cookie {
        Some(c) => if c.len() > 0 {
            base.push(("Cookie"@, c))
        } else {
            base
        },
        None => base,
    }
}

/// The request that the eapi endpoint `path` receives for a payload of the player.
pub open spec fn eapi_request(
    path: Seq<char>,
    strings: Seq<(Seq<char>, Seq<char>)>,
    numbers: Seq<(Seq<char>, u64)>,
    flags: Seq<(Seq<char>, bool)>,
    cookie: Option<Seq<char>>,
    nonce: u64,
) -> ApiRequestView {
    eapi_request_from(path, strings, numbers, flags, cookie, nonce, "canopus-lyra-player"@)
}

/// The request that the eapi endpoint `path` receives for a payload sent by
/// the device `device_id`.
pub open spec fn eapi_request_from(
    path: Seq<char>,
    strings: Seq<(Seq<char>, Seq<char>)>,
    numbers: Seq<(Seq<char>, u64)>,
    flags: Seq<(Seq<char>, bool)>,
    cookie: Option<Seq<char>>,
    nonce: u64,
    device_id: Seq<char>,
) -> ApiRequestView {
    ApiRequestView {
        url: "https://interfacepc.music.163.com"@ + "/eapi/"@ + strip_all_prefix(path, "/api/"@),
        method: "POST"@,
        headers: eapi_headers(cookie),
        body: Some(
            "params="@ + eapi_params(
                path,
                eapi_text(strings, numbers, flags, nonce, device_id),
            ),
        ),
    }
}

/// A string from a literal.
fn st(s: &str) -> (r: String)
    ensures
        r@ == s@,
{
    String::from_str(s)
}

/// A string member.
fn text_member(key: &str, value: &str) -> (r: (String, String))
    ensures
        r.0@ == key@,
        r.1@ == value@,
{
    (st(key), st(value))
}

/// The device header members for `nonce`.
pub fn device_header_members(nonce: u64, device_id: &str) -> (r: Vec<(String, String)>)
    ensures
        r.deep_view() == device_header(nonce, device_id@),
{
    let mut request_id = String::new();
    push_decimal(&mut request_id, nonce);
    request_id.append("_0000");
    let mut h: Vec<(String, String)> = Vec::new();
    push_text(&mut h, "osver", "16.2");
    push_text(&mut h, "deviceId", device_id);
    push_text(&mut h, "os", "iPhone OS");
    push_text(&mut h, "appver", "9.0.90");
    push_text(&mut h, "versioncode", "5038");
    push_text(&mut h, "buildver", "1700000000");
    push_text(&mut h, "resolution", "336x480");
    push_text(&mut h, "channel", "distribution");
    let ghost before = h.deep_view();
    let ghost rid = request_id@;
    h.push((st("requestId"), request_id));
    assert(h.deep_view() =~= before.push(("requestId"@, rid)));
    assert(h.deep_view() =~= device_header(nonce, device_id@));
    h
}

/// The UTF-8 bytes of a string, owned.
fn bytes_of(s: &String) -> (r: Vec<u8>)
    ensures
        r@ == utf8(s@),
{
    vstd::slice::slice_to_vec(s.as_str().as_bytes())
}

/// The encrypted `params` of a payload text.
pub fn eapi_params_of(path: &str, text: &String) -> (r: String)
    ensures
        r@ == eapi_params(path@, text@),
        r@.len() == 32 * (utf8(eapi_signed(path@, text@)).len() / 16 + 1),
{
    let mut message = st("nobody");
    message.append(path);
    message.append("use");
    message.append(text.as_str());
    message.append("md5forencrypt");
    let digest = md5(bytes_of(&message).as_slice());
    let mut signed = st(path);
    signed.append(EAPI_DELIMITER);
    signed.append(text.as_str());
    signed.append(EAPI_DELIMITER);
    push_hex_lower(&mut signed, digest.as_slice());
    let key: [u8; 16] = [101, 56, 50, 99, 107, 101, 110, 104, 56, 100, 105, 99, 104, 101, 110, 56];
    assert(key@ =~= eapi_key());
    let plain = bytes_of(&signed);
    let _ = crate::text::byte_len(plain.as_slice());
    let encrypted = aes128_ecb_pkcs7_encrypt(&key, plain.as_slice());
    let mut params = String::new();
    push_hex_upper(&mut params, encrypted.as_slice());
    assert(params@ =~= Seq::<char>::empty() + hex_upper_bytes(encrypted@));
    proof {
        reveal_strlit("nobody");
        reveal_strlit("-36cd479b6b5-");
        lemma_hex_upper_len(encrypted@);
        assert(plain@ == utf8(eapi_signed(path@, text@)));
    }
    params
}

/// An eapi request of the player to `path` with a payload of string, number and
/// boolean members.
fn eapi(
    path: &str,
    strings: Vec<(String, String)>,
    numbers: Vec<(String, u64)>,
    flags: Vec<(String, bool)>,
    cookie: Option<&str>,
    nonce: u64,
) -> (r: ApiRequest)
    ensures
        r@ == eapi_request(
            path@,
            strings.deep_view(),
            numbers.deep_view(),
            flags.deep_view(),
            cookie_view(cookie),
            nonce,
        ),
        r@.body matches Some(b) && b.len() == eapi_body_len(
            path@,
            eapi_text(
                strings.deep_view(),
                numbers.deep_view(),
                flags.deep_view(),
                nonce,
                "canopus-lyra-player"@,
            ),
        ),
{
    eapi_from(path, strings, numbers, flags, cookie, nonce, "canopus-lyra-player")
}

/// An eapi request of the device `device_id` to `path` with a payload of string,
/// number and boolean members.
pub fn eapi_from(
    path: &str,
    strings: Vec<(String, String)>,
    numbers: Vec<(String, u64)>,
    flags: Vec<(String, bool)>,
    cookie: Option<&str>,
    nonce: u64,
    device_id: &str,
) -> (r: ApiRequest)
    ensures
        r@ == eapi_request_from(
            path@,
            strings.deep_view(),
            numbers.deep_view(),
            flags.deep_view(),
            cookie_view(cookie),
            nonce,
            device_id@,
        ),
        r@.body matches Some(b) && b.len() == eapi_body_len(
            path@,
            eapi_text(strings.deep_view(), numbers.deep_view(), flags.deep_view(), nonce, device_id@),
        ),
{
    let header = device_header_members(nonce, device_id);
    let mut flags = flags;
    let ghost f0 = flags.deep_view();
    flags.push((st("e_r"), false));
    assert(flags.deep_view() =~= f0.push(("e_r"@, false)));
    let text = json_object(&strings, &numbers, &flags, "header", &header);
    let params = eapi_params_of(path, &text);
    let mut headers: Vec<(String, String)> = Vec::new();
    push_text(&mut headers, "Content-Type", "application/x-www-form-urlencoded");
    push_text(&mut headers, "User-Agent", USER_AGENT);
    match cookie {
        Some(c) => {
            if c.unicode_len() != 0 {
                push_text(&mut headers, "Cookie", c);
            }
        },
        None => {},
    }
    let mut url = st(DEFAULT_API_BASE);
    url.append("/eapi/");
    proof {
        reveal_strlit("/api/");
    }
    url.append(trim_start_matches(path, "/api/"));
    let mut body = st("params=");
    body.append(params.as_str());
    proof {
        reveal_strlit("/api/");
        reveal_strlit("Cookie");
        reveal_strlit("params=");
    }
    let r = ApiRequest { url, method: "POST", headers, body: Some(body) };
    assert(r.headers.deep_view() =~= eapi_headers(
        match cookie {
            Some(c) => Some(c@),
            None => None,
        },
    ));
    r
}

/// A number member.
fn number_member(key: &str, value: u64) -> (r: (String, u64))
    ensures
        r.0@ == key@,
        r.1 == value,
{
    (st(key), value)
}

/// A boolean member.
fn flag_member(key: &str, value: bool) -> (r: (String, bool))
    ensures
        r.0@ == key@,
        r.1 == value,
{
    (st(key), value)
}

/// The optional cookie as a view.
pub open spec fn cookie_view(cookie: Option<&str>) -> Option<Seq<char>> {
    match cookie {
        Some(c) => Some(c@),
        None => None,
    }
}

/// Appends a string member.
fn push_text(v: &mut Vec<(String, String)>, key: &str, value: &str)
    ensures
        final(v).deep_view() == old(v).deep_view().push((key@, value@)),
{
    let ghost before = v.deep_view();
    v.push(text_member(key, value));
    assert(v.deep_view() =~= before.push((key@, value@)));
}

/// Appends a number member.
fn push_number(v: &mut Vec<(String, u64)>, key: &str, value: u64)
    ensures
        final(v).deep_view() == old(v).deep_view().push((key@, value)),
{
    let ghost before = v.deep_view();
    v.push(number_member(key, value));
    assert(v.deep_view() =~= before.push((key@, value)));
}

/// Appends a boolean member.
fn push_flag(v: &mut Vec<(String, bool)>, key: &str, value: bool)
    ensures
        final(v).deep_view() == old(v).deep_view().push((key@, value)),
{
    let ghost before = v.deep_view();
    v.push(flag_member(key, value));
    assert(v.deep_view() =~= before.push((key@, value)));
}

/// No string members.
fn no_strings() -> (r: Vec<(String, String)>)
    ensures
        r.deep_view() == Seq::<(Seq<char>, Seq<char>)>::empty(),
{
    let r = Vec::new();
    assert(r.deep_view() =~= Seq::<(Seq<char>, Seq<char>)>::empty());
    r
}

/// No number members.
fn no_numbers() -> (r: Vec<(String, u64)>)
    ensures
        r.deep_view() == Seq::<(Seq<char>, u64)>::empty(),
{
    let r = Vec::new();
    assert(r.deep_view() =~= Seq::<(Seq<char>, u64)>::empty());
    r
}

/// No boolean members.
fn no_flags() -> (r: Vec<(String, bool)>)
    ensures
        r.deep_view() == Seq::<(Seq<char>, bool)>::empty(),
{
    let r = Vec::new();
    assert(r.deep_view() =~= Seq::<(Seq<char>, bool)>::empty());
    r
}

/// Asks for a new QR-code login key.
pub fn qr_key() -> (r: ApiRequest)
    ensures
        r@ == eapi_request(
            "/api/login/qrcode/unikey"@,
            seq![],
            seq![("type"@, 3u64)],
            seq![],
            None,
            1,
        ),
{
    let mut numbers = no_numbers();
    push_number(&mut numbers, "type", 3);
    assert(numbers.deep_view() =~= seq![("type"@, 3u64)]);
    eapi("/api/login/qrcode/unikey", no_strings(), numbers, no_flags(), None, 1)
}

/// The page a phone opens to confirm a QR-code login.
pub fn qr_url(key: &str) -> (r: String)
    ensures
        r@ == "https://music.163.com/login?codekey="@ + percent_encoded(key.spec_bytes()),
{
    let mut out = st("https://music.163.com/login?codekey=");
    push_percent_encoded(&mut out, key.as_bytes());
    out
}

/// Asks whether a QR-code login was scanned and confirmed.
pub fn qr_check(key: &str, nonce: u64) -> (r: ApiRequest)
    ensures
        r@ == eapi_request(
            "/api/login/qrcode/client/login"@,
            seq![("key"@, key@)],
            seq![("type"@, 3u64)],
            seq![],
            None,
            nonce,
        ),
{
    let mut strings = no_strings();
    push_text(&mut strings, "key", key);
    let mut numbers = no_numbers();
    push_number(&mut numbers, "type", 3);
    assert(strings.deep_view() =~= seq![("key"@, key@)]);
    assert(numbers.deep_view() =~= seq![("type"@, 3u64)]);
    eapi("/api/login/qrcode/client/login", strings, numbers, no_flags(), None, nonce)
}

/// Asks for the account behind a cookie.
pub fn login_status(cookie: &str, nonce: u64) -> (r: ApiRequest)
    ensures
        r@ == eapi_request("/api/w/nuser/account/get"@, seq![], seq![], seq![], Some(cookie@), nonce),
{
    eapi("/api/w/nuser/account/get", no_strings(), no_numbers(), no_flags(), Some(cookie), nonce)
}

/// Asks for a page of twenty of a user's playlists.
pub fn user_playlists(uid: u64, offset: u32, cookie: &str) -> (r: ApiRequest)
    ensures
        r@ == eapi_request(
            "/api/user/playlist"@,
            seq![],
            seq![("uid"@, uid), ("limit"@, 20u64), ("offset"@, offset as u64)],
            seq![("includeVideo"@, true)],
            Some(cookie@),
            (offset as u64 + 1) as u64,
        ),
{
    let mut numbers = no_numbers();
    push_number(&mut numbers, "uid", uid);
    push_number(&mut numbers, "limit", 20);
    push_number(&mut numbers, "offset", offset as u64);
    let mut flags = no_flags();
    push_flag(&mut flags, "includeVideo", true);
    assert(numbers.deep_view() =~= seq![
        ("uid"@, uid),
        ("limit"@, 20u64),
        ("offset"@, offset as u64),
    ]);
    assert(flags.deep_view() =~= seq![("includeVideo"@, true)]);
    eapi("/api/user/playlist", no_strings(), numbers, flags, Some(cookie), offset as u64 + 1)
}

/// Asks for the daily recommended playlists.
pub fn daily_playlists(cookie: &str, nonce: u64) -> (r: ApiRequest)
    ensures
        r@ == eapi_request(
            "/api/v1/discovery/recommend/resource"@,
            seq![],
            seq![],
            seq![],
            Some(cookie@),
            nonce,
        ),
{
    eapi(
        "/api/v1/discovery/recommend/resource",
        no_strings(),
        no_numbers(),
        no_flags(),
        Some(cookie),
        nonce,
    )
}

/// Asks for the daily recommended songs.
pub fn daily_songs(cookie: &str, nonce: u64) -> (r: ApiRequest)
    ensures
        r@ == eapi_request(
            "/api/v3/discovery/recommend/songs"@,
            seq![],
            seq![],
            seq![("afresh"@, false)],
            Some(cookie@),
            nonce,
        ),
{
    let mut flags = no_flags();
    push_flag(&mut flags, "afresh", false);
    assert(flags.deep_view() =~= seq![("afresh"@, false)]);
    eapi(
        "/api/v3/discovery/recommend/songs",
        no_strings(),
        no_numbers(),
        flags,
        Some(cookie),
        nonce,
    )
}

/// Asks for a playlist with all its tracks.
pub fn playlist_detail(id: u64, cookie: &str, nonce: u64) -> (r: ApiRequest)
    ensures
        r@ == eapi_request(
            "/api/v6/playlist/detail"@,
            seq![],
            seq![("id"@, id), ("n"@, 100000u64), ("s"@, 0u64)],
            seq![],
            Some(cookie@),
            nonce,
        ),
{
    let mut numbers = no_numbers();
    push_number(&mut numbers, "id", id);
    push_number(&mut numbers, "n", 100000);
    push_number(&mut numbers, "s", 0);
    assert(numbers.deep_view() =~= seq![("id"@, id), ("n"@, 100000u64), ("s"@, 0u64)]);
    eapi("/api/v6/playlist/detail", no_strings(), numbers, no_flags(), Some(cookie), nonce)
}

/// Asks for a playlist's tracks from `offset`.
pub fn playlist_tracks(id: u64, offset: u32, cookie: &str) -> (r: ApiRequest)
    ensures
        r@ == eapi_request(
            "/api/v6/playlist/detail"@,
            seq![],
            seq![("id"@, id), ("n"@, 100000u64), ("s"@, 0u64), ("lyra_offset"@, offset as u64)],
            seq![],
            Some(cookie@),
            (offset as u64 + 1) as u64,
        ),
{
    let mut numbers = no_numbers();
    push_number(&mut numbers, "id", id);
    push_number(&mut numbers, "n", 100000);
    push_number(&mut numbers, "s", 0);
    push_number(&mut numbers, "lyra_offset", offset as u64);
    assert(numbers.deep_view() =~= seq![
        ("id"@, id),
        ("n"@, 100000u64),
        ("s"@, 0u64),
        ("lyra_offset"@, offset as u64),
    ]);
    eapi(
        "/api/v6/playlist/detail",
        no_strings(),
        numbers,
        no_flags(),
        Some(cookie),
        offset as u64 + 1,
    )
}

/// The `ids` member of a song URL request: `["<id>"]`.
pub open spec fn song_ids(id: u64) -> Seq<char> {
    "[\""@ + decimal(id as nat) + "\"]"@
}

/// Asks for the audio URL of a song at 320 kbit/s.
pub fn song_url(id: u64, cookie: &str, nonce: u64) -> (r: ApiRequest)
    ensures
        r@ == eapi_request(
            "/api/song/enhance/player/url"@,
            seq![("ids"@, song_ids(id))],
            seq![("br"@, 320000u64)],
            seq![],
            Some(cookie@),
            nonce,
        ),
{
    let mut ids = st("[\"");
    push_decimal(&mut ids, id);
    ids.append("\"]");
    let mut strings = no_strings();
    strings.push((st("ids"), ids));
    let mut numbers = no_numbers();
    push_number(&mut numbers, "br", 320000);
    assert(strings.deep_view() =~= seq![("ids"@, song_ids(id))]);
    assert(numbers.deep_view() =~= seq![("br"@, 320000u64)]);
    eapi("/api/song/enhance/player/url", strings, numbers, no_flags(), Some(cookie), nonce)
}

/// Asks for a song's lyrics and translations.
pub fn lyric(id: u64, cookie: &str, nonce: u64) -> (r: ApiRequest)
    ensures
        r@ == eapi_request(
            "/api/song/lyric/v1"@,
            seq![],
            seq![
                ("id"@, id),
                ("tv"@, 0u64),
                ("lv"@, 0u64),
                ("rv"@, 0u64),
                ("kv"@, 0u64),
                ("yv"@, 0u64),
                ("ytv"@, 0u64),
                ("yrv"@, 0u64),
            ],
            seq![("cp"@, false)],
            Some(cookie@),
            nonce,
        ),
{
    let mut numbers = no_numbers();
    push_number(&mut numbers, "id", id);
    push_number(&mut numbers, "tv", 0);
    push_number(&mut numbers, "lv", 0);
    push_number(&mut numbers, "rv", 0);
    push_number(&mut numbers, "kv", 0);
    push_number(&mut numbers, "yv", 0);
    push_number(&mut numbers, "ytv", 0);
    push_number(&mut numbers, "yrv", 0);
    let mut flags = no_flags();
    push_flag(&mut flags, "cp", false);
    assert(numbers.deep_view() =~= seq![
        ("id"@, id),
        ("tv"@, 0u64),
        ("lv"@, 0u64),
        ("rv"@, 0u64),
        ("kv"@, 0u64),
        ("yv"@, 0u64),
        ("ytv"@, 0u64),
        ("yrv"@, 0u64),
    ]);
    assert(flags.deep_view() =~= seq![("cp"@, false)]);
    eapi("/api/song/lyric/v1", no_strings(), numbers, flags, Some(cookie), nonce)
}

/// A search of kind `kind` (1 songs, 100 artists).
fn search(query: &str, kind: u64, limit: u64, offset: u32, cookie: Option<&str>) -> (r: ApiRequest)
    ensures
        r@ == eapi_request(
            "/api/search/get"@,
            seq![("s"@, query@)],
            seq![("type"@, kind), ("limit"@, limit), ("offset"@, offset as u64)],
            seq![],
            cookie_view(cookie),
            (offset as u64 + 1) as u64,
        ),
{
    let mut strings = no_strings();
    push_text(&mut strings, "s", query);
    let mut numbers = no_numbers();
    push_number(&mut numbers, "type", kind);
    push_number(&mut numbers, "limit", limit);
    push_number(&mut numbers, "offset", offset as u64);
    assert(strings.deep_view() =~= seq![("s"@, query@)]);
    assert(numbers.deep_view() =~= seq![
        ("type"@, kind),
        ("limit"@, limit),
        ("offset"@, offset as u64),
    ]);
    eapi("/api/search/get", strings, numbers, no_flags(), cookie, offset as u64 + 1)
}

/// Searches twenty songs from `offset`.
pub fn search_songs(query: &str, offset: u32, cookie: Option<&str>) -> (r: ApiRequest)
    ensures
        r@ == eapi_request(
            "/api/search/get"@,
            seq![("s"@, query@)],
            seq![("type"@, 1u64), ("limit"@, 20u64), ("offset"@, offset as u64)],
            seq![],
            cookie_view(cookie),
            (offset as u64 + 1) as u64,
        ),
{
    search(query, 1, 20, offset, cookie)
}

/// Searches ten artists from `offset`.
pub fn search_artists(query: &str, offset: u32, cookie: Option<&str>) -> (r: ApiRequest)
    ensures
        r@ == eapi_request(
            "/api/search/get"@,
            seq![("s"@, query@)],
            seq![("type"@, 100u64), ("limit"@, 10u64), ("offset"@, offset as u64)],
            seq![],
            cookie_view(cookie),
            (offset as u64 + 1) as u64,
        ),
{
    search(query, 100, 10, offset, cookie)
}

/// Asks for an artist's page.
pub fn artist_detail(id: u64, cookie: Option<&str>) -> (r: ApiRequest)
    ensures
        r@ == eapi_request(
            "/api/artist/head/info/get"@,
            seq![],
            seq![("id"@, id)],
            seq![],
            cookie_view(cookie),
            id,
        ),
{
    let mut numbers = no_numbers();
    push_number(&mut numbers, "id", id);
    assert(numbers.deep_view() =~= seq![("id"@, id)]);
    eapi("/api/artist/head/info/get", no_strings(), numbers, no_flags(), cookie, id)
}

/// The nonce of a paged artist request: the id plus the offset, wrapping.
pub open spec fn paged_nonce(id: u64, offset: u32) -> u64 {
    ((id as int + offset as int) % 0x1_0000_0000_0000_0000) as u64
}

/// Asks for thirty of an artist's hot songs from `offset`.
pub fn artist_songs(id: u64, offset: u32, cookie: Option<&str>) -> (r: ApiRequest)
    ensures
        r@ == eapi_request(
            "/api/v1/artist/songs"@,
            seq![("private_cloud"@, "true"@), ("order"@, "hot"@)],
            seq![("id"@, id), ("work_type"@, 1u64), ("limit"@, 30u64), ("offset"@, offset as u64)],
            seq![],
            cookie_view(cookie),
            paged_nonce(id, offset),
        ),
{
    let mut strings = no_strings();
    push_text(&mut strings, "private_cloud", "true");
    push_text(&mut strings, "order", "hot");
    let mut numbers = no_numbers();
    push_number(&mut numbers, "id", id);
    push_number(&mut numbers, "work_type", 1);
    push_number(&mut numbers, "limit", 30);
    push_number(&mut numbers, "offset", offset as u64);
    assert(strings.deep_view() =~= seq![("private_cloud"@, "true"@), ("order"@, "hot"@)]);
    assert(numbers.deep_view() =~= seq![
        ("id"@, id),
        ("work_type"@, 1u64),
        ("limit"@, 30u64),
        ("offset"@, offset as u64),
    ]);
    let nonce = id.wrapping_add(offset as u64);
    eapi("/api/v1/artist/songs", strings, numbers, no_flags(), cookie, nonce)
}

/// The path of an artist's album list.
pub open spec fn artist_albums_path(id: u64) -> Seq<char> {
    "/api/artist/albums/"@ + decimal(id as nat)
}

/// Asks for twenty of an artist's albums from `offset`.
pub fn artist_albums(id: u64, offset: u32, cookie: Option<&str>) -> (r: ApiRequest)
    ensures
        r@ == eapi_request(
            artist_albums_path(id),
            seq![],
            seq![("limit"@, 20u64), ("offset"@, offset as u64)],
            seq![("total"@, true)],
            cookie_view(cookie),
            paged_nonce(id, offset),
        ),
{
    let mut path = st("/api/artist/albums/");
    push_decimal(&mut path, id);
    let mut numbers = no_numbers();
    push_number(&mut numbers, "limit", 20);
    push_number(&mut numbers, "offset", offset as u64);
    let mut flags = no_flags();
    push_flag(&mut flags, "total", true);
    assert(numbers.deep_view() =~= seq![("limit"@, 20u64), ("offset"@, offset as u64)]);
    assert(flags.deep_view() =~= seq![("total"@, true)]);
    let nonce = id.wrapping_add(offset as u64);
    eapi(path.as_str(), no_strings(), numbers, flags, cookie, nonce)
}

/// Why an answer of the service was refused.
#[derive(Clone, Debug, PartialEq, Eq)]
pub enum ApiError {
    Json,
    Server(i32),
    Missing,
}

/// The outcome of polling a QR-code login.
#[derive(Clone, Debug, PartialEq, Eq)]
pub struct QrCheck {
    pub code: i32,
    pub cookie: Option<String>,
}

/// Codes that mean success: any 2xx, and the QR-login codes 800 to 803.
pub open spec fn code_accepted(code: i32) -> bool {
    (200 <= code < 300) || (800 <= code <= 803)
}

/// Whether an answer's code means success.
pub fn ensure_ok(code: i32) -> (r: Result<(), ApiError>)
    ensures
        r == (if code_accepted(code) {
            Ok::<(), ApiError>(())
        } else {
            Err::<(), ApiError>(ApiError::Server(code))
        }),
{
    if (200 <= code && code < 300) || (800 <= code && code <= 803) {
        Ok(())
    } else {
        Err(ApiError::Server(code))
    }
}

/// `value` when the answer's code is 200.
pub fn require_ok<T>(code: i32, value: T) -> (r: Result<T, ApiError>)
    ensures
        r == (if code == 200 {
            Ok::<T, ApiError>(value)
        } else {
            Err::<T, ApiError>(ApiError::Server(code))
        }),
{
    if code != 200 {
        Err(ApiError::Server(code))
    } else {
        Ok(value)
    }
}

/// The QR-code login key of an answer: the top-level key, else the one under `data`.
pub fn choose_qr_key(code: i32, unikey: String, data_unikey: Option<String>) -> (r: Result<
    String,
    ApiError,
>)
    ensures
        code != 200 ==> r == Err::<String, ApiError>(ApiError::Server(code)),
        code == 200 ==> match r {
            Ok(key) => if unikey@.len() == 0 {
                data_unikey matches Some(d) && key == d
            } else {
                key == unikey
            },
            Err(e) => e == ApiError::Missing && unikey@.len() == 0 && data_unikey is None,
        },
{
    if code != 200 {
        return Err(ApiError::Server(code));
    }
    if unikey.as_str().unicode_len() == 0 {
        match data_unikey {
            Some(key) => Ok(key),
            None => Err(ApiError::Missing),
        }
    } else {
        Ok(unikey)
    }
}

/// The account of a login-status answer.
pub fn choose_profile(code: i32, profile: Option<Profile>) -> (r: Result<Profile, ApiError>)
    ensures
        r == (if code != 200 {
            Err::<Profile, ApiError>(ApiError::Server(code))
        } else {
            match profile {
                Some(p) => Ok::<Profile, ApiError>(p),
                None => Err::<Profile, ApiError>(ApiError::Missing),
            }
        }),
{
    if code != 200 {
        return Err(ApiError::Server(code));
    }
    match profile {
        Some(p) => Ok(p),
        None => Err(ApiError::Missing),
    }
}

/// The playlists of an answer: the user's when there are any, else the recommended ones.
pub fn choose_playlists(code: i32, playlist: Vec<Playlist>, recommend: Vec<Playlist>) -> (r: Result<
    Vec<Playlist>,
    ApiError,
>)
    ensures
        r == (if code != 200 {
            Err::<Vec<Playlist>, ApiError>(ApiError::Server(code))
        } else if playlist@.len() == 0 {
            Ok::<Vec<Playlist>, ApiError>(recommend)
        } else {
            Ok::<Vec<Playlist>, ApiError>(playlist)
        }),
{
    if code != 200 {
        return Err(ApiError::Server(code));
    }
    if playlist.len() == 0 {
        Ok(recommend)
    } else {
        Ok(playlist)
    }
}

/// The songs of an answer: its `songs` when there are any, else the tracks of its playlist.
pub fn choose_songs(code: i32, songs: Vec<Song>, playlist_tracks: Option<Vec<Song>>) -> (r: Result<
    Vec<Song>,
    ApiError,
>)
    ensures
        code != 200 ==> r == Err::<Vec<Song>, ApiError>(ApiError::Server(code)),
        code == 200 ==> match r {
            Ok(v) => if songs@.len() == 0 {
                match playlist_tracks {
                    Some(t) => v == t,
                    None => v@.len() == 0,
                }
            } else {
                v == songs
            },
            Err(_) => false,
        },
{
    if code != 200 {
        return Err(ApiError::Server(code));
    }
    if songs.len() == 0 {
        match playlist_tracks {
            Some(tracks) => Ok(tracks),
            None => Ok(Vec::new()),
        }
    } else {
        Ok(songs)
    }
}

/// The audio URL of a song-URL answer: the first item's proxy URL when it has one, else its URL.
pub fn choose_song_url(code: i32, first: Option<(Option<String>, String)>) -> (r: Result<
    String,
    ApiError,
>)
    ensures
        r == (if code != 200 {
            Err::<String, ApiError>(ApiError::Server(code))
        } else {
            match first {
                None => Err::<String, ApiError>(ApiError::Missing),
                Some((url, proxy)) => if proxy@.len() != 0 {
                    Ok::<String, ApiError>(proxy)
                } else {
                    match url {
                        Some(u) => Ok::<String, ApiError>(u),
                        None => Err::<String, ApiError>(ApiError::Missing),
                    }
                },
            }
        }),
{
    if code != 200 {
        return Err(ApiError::Server(code));
    }
    match first {
        None => Err(ApiError::Missing),
        Some((url, proxy)) => {
            if proxy.as_str().unicode_len() != 0 {
                Ok(proxy)
            } else {
                match url {
                    Some(u) => Ok(u),
                    None => Err(ApiError::Missing),
                }
            }
        },
    }
}

} // verus!
