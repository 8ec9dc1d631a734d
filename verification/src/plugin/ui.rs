//! The decisions of the plugin's screen: what each event does to the screen
//! state and which outside work it asks for, and the texts the screen shows.
use vstd::prelude::*;

use crate::model::opt_string_view;
use crate::plugin::import::{
    allowed_extensions, is_audio, is_cover, is_lyrics, ImportAsset, ImportTrack,
};
use crate::plugin::state::{CloudSong, SelectedFile, UiState};
use crate::text::{
    ascii_lowercase, decimal, last_index_of, lemma_last_index_of, lower_char, parse_unsigned,
    parsed_unsigned, percent_encoded, push_decimal, rfind_char, str_eq, to_ascii_lowercase, trim,
    trimmed,
};
use vstd::string::StringSliceAdditionalSpecFns;

verus! {

pub const EVENT_PICK_AUDIO: &'static str = "action:file.audio";

pub const EVENT_PICK_COVER: &'static str = "action:file.cover";

pub const EVENT_PICK_LYRICS: &'static str = "action:file.lyrics";

pub const EVENT_REFRESH: &'static str = "action:devices.refresh";

pub const EVENT_START_LOCAL: &'static str = "action:import.local";

pub const EVENT_CANCEL: &'static str = "action:import.cancel";

pub const EVENT_DEVICE: &'static str = "input:device";

pub const EVENT_NAME: &'static str = "input:name";

pub const EVENT_ARTIST: &'static str = "input:artist";

pub const EVENT_ALBUM: &'static str = "input:album";

pub const EVENT_DURATION: &'static str = "input:duration";

pub const EVENT_COOKIE: &'static str = "input:netease.cookie";

pub const EVENT_QUERY: &'static str = "input:netease.query";

pub const EVENT_SEARCH_CLOUD: &'static str = "action:netease.search";

pub const EVENT_CLOUD_SELECT: &'static str = "input:netease.song";

pub const EVENT_START_CLOUD: &'static str = "action:netease.import";

pub const EVENT_QR_BEGIN: &'static str = "action:netease.qr.begin";

pub const EVENT_QR_POLL: &'static str = "action:netease.qr.poll";

/// The outside work that an event of the screen asks for.
#[derive(Debug)]
pub enum UiCommand {
    /// Nothing beyond the change of state.
    Nothing,
    /// Let the user pick a file of this kind with one of these extensions.
    PickAsset { kind: &'static str, extensions: Vec<&'static str> },
    RefreshDevices,
    StartLocal,
    SearchCloud,
    StartCloud,
    BeginQr,
    PollQr,
    Cancel,
}

/// `ui` with its status replaced.
pub open spec fn with_status(ui: UiState, status: String) -> UiState {
    UiState { status, ..ui }
}

/// The text of an optional event value, empty where it is missing.
pub open spec fn value_text(v: Option<String>) -> Seq<char> {
    match opt_string_view(v) {
        Some(s) => s,
        None => Seq::empty(),
    }
}

/// A number typed in a field: its value, or 0 where it does not parse.
pub open spec fn typed_number(v: Option<String>, max: nat) -> nat {
    match v {
        Some(s) => match parsed_unsigned(s@, max) {
            Some(n) => n,
            None => 0,
        },
        None => 0,
    }
}

/// The extensions of a kind as a list of texts.
pub open spec fn extension_texts(e: Seq<&'static str>) -> Seq<Seq<char>> {
    e.map_values(|x: &'static str| x@)
}

/// A picker for a kind of file.
pub open spec fn picks(c: UiCommand, kind: Seq<char>) -> bool {
    c matches UiCommand::PickAsset { kind: k, extensions } && k@ == kind && allowed_extensions(
        kind,
    ) == Some(extension_texts(extensions@))
}

fn text_of(v: Option<String>) -> (r: String)
    ensures
        r@ == value_text(v),
{
    match v {
        Some(s) => s,
        None => String::new(),
    }
}

fn number_of(v: &Option<String>, max: u64) -> (r: u64)
    ensures
        r == typed_number(*v, max as nat),
{
    match v {
        Some(s) => match parse_unsigned(s.as_str(), max) {
            Some(n) => n,
            None => 0,
        },
        None => 0,
    }
}

/// The events of the screen.
#[derive(Clone, Copy, Debug, PartialEq, Eq, Structural)]
pub enum EventKind {
    PickAudio,
    PickCover,
    PickLyrics,
    Refresh,
    Device,
    Name,
    Artist,
    Album,
    Duration,
    Cookie,
    Query,
    CloudSelect,
    StartLocal,
    SearchCloud,
    StartCloud,
    QrBegin,
    QrPoll,
    Cancel,
    Unknown,
}

/// Which event an event id names.
pub open spec fn event_kind(id: Seq<char>) -> EventKind {
    if id == EVENT_PICK_AUDIO@ {
        EventKind::PickAudio
    } else if id == EVENT_PICK_COVER@ {
        EventKind::PickCover
    } else if id == EVENT_PICK_LYRICS@ {
        EventKind::PickLyrics
    } else if id == EVENT_REFRESH@ {
        EventKind::Refresh
    } else if id == EVENT_DEVICE@ {
        EventKind::Device
    } else if id == EVENT_NAME@ {
        EventKind::Name
    } else if id == EVENT_ARTIST@ {
        EventKind::Artist
    } else if id == EVENT_ALBUM@ {
        EventKind::Album
    } else if id == EVENT_DURATION@ {
        EventKind::Duration
    } else if id == EVENT_COOKIE@ {
        EventKind::Cookie
    } else if id == EVENT_QUERY@ {
        EventKind::Query
    } else if id == EVENT_CLOUD_SELECT@ {
        EventKind::CloudSelect
    } else if id == EVENT_START_LOCAL@ {
        EventKind::StartLocal
    } else if id == EVENT_SEARCH_CLOUD@ {
        EventKind::SearchCloud
    } else if id == EVENT_START_CLOUD@ {
        EventKind::StartCloud
    } else if id == EVENT_QR_BEGIN@ {
        EventKind::QrBegin
    } else if id == EVENT_QR_POLL@ {
        EventKind::QrPoll
    } else if id == EVENT_CANCEL@ {
        EventKind::Cancel
    } else {
        EventKind::Unknown
    }
}

/// Which event an event id names.
pub fn classify_event(id: &str) -> (k: EventKind)
    ensures
        k == event_kind(id@),
{
    if str_eq(id, EVENT_PICK_AUDIO) {
        EventKind::PickAudio
    } else if str_eq(id, EVENT_PICK_COVER) {
        EventKind::PickCover
    } else if str_eq(id, EVENT_PICK_LYRICS) {
        EventKind::PickLyrics
    } else if str_eq(id, EVENT_REFRESH) {
        EventKind::Refresh
    } else if str_eq(id, EVENT_DEVICE) {
        EventKind::Device
    } else if str_eq(id, EVENT_NAME) {
        EventKind::Name
    } else if str_eq(id, EVENT_ARTIST) {
        EventKind::Artist
    } else if str_eq(id, EVENT_ALBUM) {
        EventKind::Album
    } else if str_eq(id, EVENT_DURATION) {
        EventKind::Duration
    } else if str_eq(id, EVENT_COOKIE) {
        EventKind::Cookie
    } else if str_eq(id, EVENT_QUERY) {
        EventKind::Query
    } else if str_eq(id, EVENT_CLOUD_SELECT) {
        EventKind::CloudSelect
    } else if str_eq(id, EVENT_START_LOCAL) {
        EventKind::StartLocal
    } else if str_eq(id, EVENT_SEARCH_CLOUD) {
        EventKind::SearchCloud
    } else if str_eq(id, EVENT_START_CLOUD) {
        EventKind::StartCloud
    } else if str_eq(id, EVENT_QR_BEGIN) {
        EventKind::QrBegin
    } else if str_eq(id, EVENT_QR_POLL) {
        EventKind::QrPoll
    } else if str_eq(id, EVENT_CANCEL) {
        EventKind::Cancel
    } else {
        EventKind::Unknown
    }
}

/// What an event does to the screen state, and the command it hands back.
pub open spec fn event_outcome(ui: UiState, k: EventKind, value: Option<String>, after: UiState, c: UiCommand) -> bool {
    match k {
        EventKind::PickAudio => picks(c, "audio"@) && after == ui,
        EventKind::PickCover => picks(c, "cover"@) && after == ui,
        EventKind::PickLyrics => picks(c, "lyrics"@) && after == ui,
        EventKind::Refresh => c is RefreshDevices && after.status@ == "已刷新连接设备。"@ && after
            == with_status(ui, after.status),
        EventKind::Device => c is Nothing && after.selected_addr@ == value_text(value) && after
            == (UiState { selected_addr: after.selected_addr, ..ui }),
        EventKind::Name => c is Nothing && after.track_name@ == value_text(value) && after
            == (UiState { track_name: after.track_name, ..ui }),
        EventKind::Artist => c is Nothing && after.artist@ == value_text(value) && after
            == (UiState { artist: after.artist, ..ui }),
        EventKind::Album => c is Nothing && after.album@ == value_text(value) && after
            == (UiState { album: after.album, ..ui }),
        EventKind::Duration => c is Nothing && after.duration_ms == typed_number(
            value,
            u32::MAX as nat,
        ) && after == (UiState { duration_ms: after.duration_ms, ..ui }),
        EventKind::Cookie => c is Nothing && after.netease_cookie@ == value_text(value) && after
            == (UiState { netease_cookie: after.netease_cookie, ..ui }),
        EventKind::Query => c is Nothing && after.netease_query@ == value_text(value) && after
            == (UiState { netease_query: after.netease_query, ..ui }),
        EventKind::CloudSelect => c is Nothing && after.netease_selected == typed_number(
            value,
            usize::MAX as nat,
        ) && after == (UiState { netease_selected: after.netease_selected, ..ui }),
        EventKind::StartLocal => c is StartLocal && after == ui,
        EventKind::SearchCloud => c is SearchCloud && after == ui,
        EventKind::StartCloud => c is StartCloud && after == ui,
        EventKind::QrBegin => c is BeginQr && after == ui,
        EventKind::QrPoll => c is PollQr && after == ui,
        EventKind::Cancel => c is Cancel && after == ui,
        EventKind::Unknown => c is Nothing && after == ui,
    }
}

/// Applies an event of the screen (`event_id`, with the value of its field if
/// any): a field's value is stored, an action is handed back as a command.
pub fn apply_event(ui: &mut UiState, event_id: &str, value: Option<String>) -> (c: UiCommand)
    ensures
        event_outcome(*old(ui), event_kind(event_id@), value, *final(ui), c),
{
    match classify_event(event_id) {
        EventKind::PickAudio => {
            let extensions = vec!["mp3"];
            assert(extension_texts(extensions@) =~= seq!["mp3"@]);
            UiCommand::PickAsset { kind: "audio", extensions }
        },
        EventKind::PickCover => {
            let extensions = vec!["jpg", "jpeg", "png"];
            assert(extension_texts(extensions@) =~= seq!["jpg"@, "jpeg"@, "png"@]);
            assert("cover"@ != "audio"@) by {
                reveal_strlit("cover");
                reveal_strlit("audio");
                assert("cover"@[0] != "audio"@[0]);
            }
            UiCommand::PickAsset { kind: "cover", extensions }
        },
        EventKind::PickLyrics => {
            let extensions = vec!["lrc", "json", "txt"];
            assert(extension_texts(extensions@) =~= seq!["lrc"@, "json"@, "txt"@]);
            assert("lyrics"@ != "audio"@ && "lyrics"@ != "cover"@) by {
                reveal_strlit("cover");
                reveal_strlit("audio");
                reveal_strlit("lyrics");
                assert("lyrics"@.len() != "audio"@.len());
            }
            UiCommand::PickAsset { kind: "lyrics", extensions }
        },
        EventKind::Refresh => {
            ui.status = String::from_str("已刷新连接设备。");
            UiCommand::RefreshDevices
        },
        EventKind::Device => {
            ui.selected_addr = text_of(value);
            UiCommand::Nothing
        },
        EventKind::Name => {
            ui.track_name = text_of(value);
            UiCommand::Nothing
        },
        EventKind::Artist => {
            ui.artist = text_of(value);
            UiCommand::Nothing
        },
        EventKind::Album => {
            ui.album = text_of(value);
            UiCommand::Nothing
        },
        EventKind::Duration => {
            ui.duration_ms = number_of(&value, u32::MAX as u64) as u32;
            UiCommand::Nothing
        },
        EventKind::Cookie => {
            ui.netease_cookie = text_of(value);
            UiCommand::Nothing
        },
        EventKind::Query => {
            ui.netease_query = text_of(value);
            UiCommand::Nothing
        },
        EventKind::CloudSelect => {
            ui.netease_selected = number_of(&value, usize::MAX as u64) as usize;
            UiCommand::Nothing
        },
        EventKind::StartLocal => UiCommand::StartLocal,
        EventKind::SearchCloud => UiCommand::SearchCloud,
        EventKind::StartCloud => UiCommand::StartCloud,
        EventKind::QrBegin => UiCommand::BeginQr,
        EventKind::QrPoll => UiCommand::PollQr,
        EventKind::Cancel => UiCommand::Cancel,
        EventKind::Unknown => UiCommand::Nothing,
    }
}

/// The word for a kind of file on the screen.
pub open spec fn asset_word(kind: Seq<char>) -> Seq<char> {
    if kind == "audio"@ {
        "音频"@
    } else if kind == "cover"@ {
        "封面"@
    } else if kind == "lyrics"@ {
        "歌词"@
    } else {
        "文件"@
    }
}

/// The word for a kind of file on the screen.
pub fn asset_label(kind: &str) -> (r: &'static str)
    ensures
        r@ == asset_word(kind@),
{
    if str_eq(kind, "audio") {
        "音频"
    } else if str_eq(kind, "cover") {
        "封面"
    } else if str_eq(kind, "lyrics") {
        "歌词"
    } else {
        "文件"
    }
}

/// A file name without its last extension.
pub open spec fn stem(name: Seq<char>) -> Seq<char> {
    match last_index_of(name, '.') {
        Some(i) => name.take(i),
        None => name,
    }
}

/// The last extension of a file name, or `fallback` where it has none.
pub open spec fn extension_or(name: Seq<char>, fallback: Seq<char>) -> Seq<char> {
    match last_index_of(name, '.') {
        Some(i) => name.skip(i + 1),
        None => fallback,
    }
}

/// Records the outcome of picking a file of `kind`: the file, or why it was refused.
pub fn record_pick(ui: &mut UiState, kind: &str, picked: Result<SelectedFile, String>)
    ensures
        match picked {
            Err(e) => final(ui).status@ == "文件读取失败："@ + e@ && *final(ui) == with_status(
                *old(ui),
                final(ui).status,
            ),
            Ok(f) => {
                &&& final(ui).status@ == "已选择"@ + asset_word(kind@) + "。"@
                &&& if kind@ == "audio"@ {
                    &&& final(ui).track_name@ == stem(f.name@)
                    &&& *final(ui) == (UiState {
                        track_name: final(ui).track_name,
                        audio: Some(f),
                        status: final(ui).status,
                        ..*old(ui)
                    })
                } else if kind@ == "cover"@ {
                    *final(ui) == (UiState { cover: Some(f), status: final(ui).status, ..*old(ui) })
                } else {
                    *final(ui) == (UiState { lyrics: Some(f), status: final(ui).status, ..*old(ui) })
                }
            },
        },
{
    match picked {
        Err(e) => {
            let mut s = String::from_str("文件读取失败：");
            s.append(e.as_str());
            ui.status = s;
        },
        Ok(f) => {
            if str_eq(kind, "audio") {
                let name = match rfind_char(f.name.as_str(), '.') {
                    Some(i) => String::from_str(f.name.as_str().substring_char(0, i)),
                    None => f.name.clone(),
                };
                ui.track_name = name;
                ui.audio = Some(f);
            } else if str_eq(kind, "cover") {
                ui.cover = Some(f);
            } else {
                ui.lyrics = Some(f);
            }
            let mut s = String::from_str("已选择");
            s.append(asset_label(kind));
            s.append("。");
            ui.status = s;
        },
    }
}

/// The extension of a picked file name, or `fallback`, made lower case.
fn lower_extension(name: &str, fallback: &str) -> (r: String)
    ensures
        r@ == ascii_lowercase(extension_or(name@, fallback@)),
{
    let n = name.unicode_len();
    match rfind_char(name, '.') {
        Some(i) => to_ascii_lowercase(name.substring_char(i + 1, n)),
        None => to_ascii_lowercase(fallback),
    }
}

/// The cover extension that a local import declares: png for a png file, jpg otherwise.
pub open spec fn cover_extension(name: Seq<char>) -> Seq<char> {
    if ascii_lowercase(extension_or(name, "jpg"@)) == "png"@ {
        "png"@
    } else {
        "jpg"@
    }
}

/// The lyrics format that a local import declares: json for a json file, lrc otherwise.
pub open spec fn lyrics_format(name: Seq<char>) -> Seq<char> {
    if ascii_lowercase(extension_or(name, "lrc"@)) == "json"@ {
        "json"@
    } else {
        "lrc"@
    }
}

/// `name` ends in `suffix`, ignoring the case of ASCII letters in the name.
pub open spec fn ends_with_ignoring_case(name: Seq<char>, suffix: Seq<char>) -> bool {
    name.len() >= suffix.len() && ascii_lowercase(name.skip(name.len() - suffix.len())) == suffix
}

/// The lower-cased last extension of a name is `ext` (lower case, without a
/// dot) exactly when the name ends in `.` and `ext`, in any case, provided the
/// fallback for names without a dot is not `ext` itself.
proof fn lemma_extension_is(name: Seq<char>, fallback: Seq<char>, ext: Seq<char>)
    requires
        ext.len() > 0,
        forall|i: int| 0 <= i < ext.len() ==> #[trigger] ext[i] != '.',
        ascii_lowercase(fallback) != ext,
    ensures
        (ascii_lowercase(extension_or(name, fallback)) == ext) == ends_with_ignoring_case(
            name,
            seq!['.'] + ext,
        ),
{
    lemma_last_index_of(name, '.');
    let n = name.len() as int;
    let m = ext.len() as int;
    let dotted = seq!['.'] + ext;
    match last_index_of(name, '.') {
        Some(i) => {
            let e = name.skip(i + 1);
            if ascii_lowercase(e) == ext {
                assert(e.len() == m);
                assert(i == n - m - 1);
                assert(ascii_lowercase(name.skip(n - m - 1)) =~= dotted) by {
                    assert forall|j: int| 0 <= j < m + 1 implies #[trigger] ascii_lowercase(
                        name.skip(n - m - 1),
                    )[j] == dotted[j] by {
                        if j > 0 {
                            assert(name.skip(n - m - 1)[j] == e[j - 1]);
                            assert(ascii_lowercase(e)[j - 1] == ext[j - 1]);
                        }
                    }
                }
            }
            if ends_with_ignoring_case(name, dotted) {
                let t = name.skip(n - m - 1);
                assert(ascii_lowercase(t)[0] == '.');
                assert(lower_char(name[n - m - 1]) == '.');
                assert(name[n - m - 1] == '.');
                assert forall|j: int| n - m - 1 < j < n implies name[j] != '.' by {
                    assert(ascii_lowercase(t)[j - (n - m - 1)] == ext[j - (n - m - 1) - 1]);
                    assert(t[j - (n - m - 1)] == name[j]);
                }
                assert(i == n - m - 1);
                assert(ascii_lowercase(e) =~= ext) by {
                    assert forall|j: int| 0 <= j < m implies #[trigger] ascii_lowercase(e)[j] == ext[j] by {
                        assert(ascii_lowercase(t)[j + 1] == dotted[j + 1]);
                        assert(t[j + 1] == e[j]);
                    }
                }
            }
        },
        None => {
            if ends_with_ignoring_case(name, dotted) {
                let t = name.skip(n - m - 1);
                assert(ascii_lowercase(t)[0] == dotted[0]);
                assert(lower_char(name[n - m - 1]) == '.');
                assert(name[n - m - 1] == '.');
            }
        },
    }
}

/// A lyrics file is declared as JSON exactly when its name ends in `.json`
/// (in any case); every other name is declared as LRC.
pub proof fn lemma_lyrics_format_follows_name(name: Seq<char>)
    ensures
        lyrics_format(name) == (if ends_with_ignoring_case(name, ".json"@) {
            "json"@
        } else {
            "lrc"@
        }),
{
    reveal_strlit(".json");
    reveal_strlit("json");
    reveal_strlit("lrc");
    assert(ascii_lowercase("lrc"@)[0] == 'l');
    assert(".json"@ =~= seq!['.'] + "json"@);
    lemma_extension_is(name, "lrc"@, "json"@);
}

/// A cover is declared as PNG exactly when its name ends in `.png` (in any
/// case); every other name is declared as JPG.
pub proof fn lemma_cover_extension_follows_name(name: Seq<char>)
    ensures
        cover_extension(name) == (if ends_with_ignoring_case(name, ".png"@) {
            "png"@
        } else {
            "jpg"@
        }),
{
    reveal_strlit(".png");
    reveal_strlit("png");
    reveal_strlit("jpg");
    assert(ascii_lowercase("jpg"@)[0] == 'j');
    assert(".png"@ =~= seq!['.'] + "png"@);
    lemma_extension_is(name, "jpg"@, "png"@);
}

/// The track and files of a local import with the given track id. Without an
/// audio file or a name nothing starts, and the screen says why.
pub fn local_import(ui: &mut UiState, track_id: u64) -> (r: Option<(ImportTrack, Vec<ImportAsset>)>)
    ensures
        old(ui).audio is None ==> r is None && final(ui).status@ == "请先选择 MP3。"@
            && *final(ui) == with_status(*old(ui), final(ui).status),
        old(ui).audio is Some && trimmed(old(ui).track_name@).len() == 0 ==> r is None
            && final(ui).status@ == "曲名不能为空。"@ && *final(ui) == with_status(
            *old(ui),
            final(ui).status,
        ),
        old(ui).audio is Some && trimmed(old(ui).track_name@).len() > 0 ==> {
            let audio = old(ui).audio.unwrap();
            let artist = trimmed(old(ui).artist@);
            &&& *final(ui) == *old(ui)
            &&& r matches Some((t, assets))
            &&& t.id == track_id && t.name@ == trimmed(old(ui).track_name@)
            &&& (if artist.len() == 0 {
                t.artists@.len() == 0
            } else {
                t.artists@.len() == 1 && t.artists@[0]@ == artist
            })
            &&& t.album@ == trimmed(old(ui).album@) && t.album_id == 0
            &&& t.duration_ms == old(ui).duration_ms
            &&& is_audio(assets@[0], audio.path, audio.size)
            &&& assets@.len() == 1 + (if old(ui).cover is Some {
                1int
            } else {
                0
            }) + (if old(ui).lyrics is Some {
                1int
            } else {
                0
            })
            &&& old(ui).cover matches Some(c) ==> is_cover(
                assets@[1],
                c.path,
                c.size,
                cover_extension(c.name@),
            )
            &&& old(ui).lyrics matches Some(l) ==> is_lyrics(
                assets@[assets@.len() - 1],
                l.path,
                l.size,
                lyrics_format(l.name@),
            )
        },
{
    let audio = match &ui.audio {
        Some(a) => a,
        None => {
            ui.status = String::from_str("请先选择 MP3。");
            return None;
        },
    };
    let name = trim(ui.track_name.as_str());
    if name.unicode_len() == 0 {
        ui.status = String::from_str("曲名不能为空。");
        return None;
    }
    let mut assets: Vec<ImportAsset> = Vec::new();
    assets.push(ImportAsset::audio(audio.path.clone(), audio.size));
    match &ui.cover {
        Some(c) => {
            let ext = lower_extension(c.name.as_str(), "jpg");
            let chosen = if str_eq(ext.as_str(), "png") {
                "png"
            } else {
                "jpg"
            };
            assets.push(ImportAsset::cover(c.path.clone(), c.size, chosen));
        },
        None => {},
    }
    match &ui.lyrics {
        Some(l) => {
            let ext = lower_extension(l.name.as_str(), "lrc");
            let chosen = if str_eq(ext.as_str(), "json") {
                "json"
            } else {
                "lrc"
            };
            assets.push(ImportAsset::lyrics(l.path.clone(), l.size, chosen));
        },
        None => {},
    }
    let artist = trim(ui.artist.as_str());
    let mut artists: Vec<String> = Vec::new();
    if artist.unicode_len() > 0 {
        artists.push(String::from_str(artist));
    }
    let track = ImportTrack {
        id: track_id,
        name: String::from_str(name),
        artists,
        album: String::from_str(trim(ui.album.as_str())),
        album_id: 0,
        duration_ms: ui.duration_ms,
    };
    Some((track, assets))
}

/// The track of a cloud song, as its import publishes it.
pub fn cloud_track(song: &CloudSong) -> (t: ImportTrack)
    ensures
        t.id == song.id,
        t.name == song.name,
        t.artists@ == song.artists@,
        t.album == song.album,
        t.album_id == song.album_id,
        t.duration_ms == song.duration_ms,
{
    let artists = song.artists.clone();
    assert(artists@ =~= song.artists@);
    ImportTrack {
        id: song.id,
        name: song.name.clone(),
        artists,
        album: song.album.clone(),
        album_id: song.album_id,
        duration_ms: song.duration_ms,
    }
}

/// Reports that an import could not start.
pub fn start_failed(ui: &mut UiState, error: &str)
    ensures
        final(ui).status@ == "无法开始导入："@ + error@,
        *final(ui) == with_status(*old(ui), final(ui).status),
{
    let mut s = String::from_str("无法开始导入：");
    s.append(error);
    ui.status = s;
}

/// Shows a message of an outside step as the status.
pub fn show_error(ui: &mut UiState, error: String)
    ensures
        final(ui).status@ == error@,
        *final(ui) == with_status(*old(ui), final(ui).status),
{
    ui.status = error;
}

/// Starts a cloud search: the query and cookie to search with, or nothing
/// (and a hint on the screen) for an empty query.
pub fn begin_search(ui: &mut UiState) -> (r: Option<(String, String)>)
    ensures
        trimmed(old(ui).netease_query@).len() == 0 ==> r is None && final(ui).status@
            == "请输入网易云搜索关键词。"@ && *final(ui) == with_status(*old(ui), final(ui).status),
        trimmed(old(ui).netease_query@).len() > 0 ==> (r matches Some((q, c)) && q
            == old(ui).netease_query && c == old(ui).netease_cookie) && final(ui).status@
            == "正在搜索网易云音乐…"@ && *final(ui) == with_status(*old(ui), final(ui).status),
{
    if trim(ui.netease_query.as_str()).unicode_len() == 0 {
        ui.status = String::from_str("请输入网易云搜索关键词。");
        return None;
    }
    ui.status = String::from_str("正在搜索网易云音乐…");
    Some((ui.netease_query.clone(), ui.netease_cookie.clone()))
}

/// Shows the outcome of a cloud search: the songs, the first selected, or the error.
pub fn finish_search(ui: &mut UiState, result: Result<Vec<CloudSong>, String>)
    ensures
        match result {
            Err(e) => final(ui).status@ == e@ && *final(ui) == with_status(*old(ui), final(ui).status),
            Ok(songs) => {
                &&& final(ui).netease_results@ == songs@
                &&& final(ui).status@ == "找到 "@ + decimal(songs@.len()) + " 首歌曲。"@
                &&& *final(ui) == (UiState {
                    netease_results: final(ui).netease_results,
                    netease_selected: 0,
                    status: final(ui).status,
                    ..*old(ui)
                })
            },
        },
{
    match result {
        Err(e) => {
            ui.status = e;
        },
        Ok(songs) => {
            let count = songs.len();
            ui.netease_results = songs;
            ui.netease_selected = 0;
            let mut s = String::from_str("找到 ");
            push_decimal(&mut s, count as u64);
            s.append(" 首歌曲。");
            ui.status = s;
        },
    }
}

/// A copy of a cloud song.
pub fn copy_cloud_song(song: &CloudSong) -> (r: CloudSong)
    ensures
        r.id == song.id,
        r.name == song.name,
        r.artists@ == song.artists@,
        r.album == song.album,
        r.album_id == song.album_id,
        r.duration_ms == song.duration_ms,
        r.cover_url == song.cover_url,
{
    let artists = song.artists.clone();
    assert(artists@ =~= song.artists@);
    CloudSong {
        id: song.id,
        name: song.name.clone(),
        artists,
        album: song.album.clone(),
        album_id: song.album_id,
        duration_ms: song.duration_ms,
        cover_url: song.cover_url.clone(),
    }
}

/// The selected cloud song to download, or nothing (and a hint) without one.
pub fn cloud_choice(ui: &mut UiState) -> (r: Option<CloudSong>)
    ensures
        old(ui).netease_selected >= old(ui).netease_results@.len() ==> r is None
            && final(ui).status@ == "请先搜索并选择歌曲。"@ && *final(ui) == with_status(
            *old(ui),
            final(ui).status,
        ),
        old(ui).netease_selected < old(ui).netease_results@.len() ==> {
            let s = old(ui).netease_results@[old(ui).netease_selected as int];
            &&& r matches Some(c) && c.id == s.id && c.name == s.name && c.artists@ == s.artists@
                && c.album == s.album && c.album_id == s.album_id && c.duration_ms
                == s.duration_ms && c.cover_url == s.cover_url
            &&& final(ui).status@ == "正在下载音频、封面与歌词…"@
            &&& *final(ui) == with_status(*old(ui), final(ui).status)
        },
{
    if ui.netease_selected >= ui.netease_results.len() {
        ui.status = String::from_str("请先搜索并选择歌曲。");
        return None;
    }
    let song = copy_cloud_song(&ui.netease_results[ui.netease_selected]);
    ui.status = String::from_str("正在下载音频、封面与歌词…");
    Some(song)
}

/// Shows that a QR login is being prepared.
pub fn begin_qr(ui: &mut UiState)
    ensures
        final(ui).status@ == "正在生成网易云登录二维码…"@,
        *final(ui) == with_status(*old(ui), final(ui).status),
{
    ui.status = String::from_str("正在生成网易云登录二维码…");
}

/// Shows a new QR login: its key and link, or the error.
pub fn finish_qr_begin(ui: &mut UiState, result: Result<(String, String), String>)
    ensures
        match result {
            Err(e) => final(ui).status@ == e@ && *final(ui) == with_status(*old(ui), final(ui).status),
            Ok((key, url)) => final(ui).status@ == "请用网易云音乐扫码并确认，然后点击检查状态。"@
                && *final(ui) == (UiState {
                qr_key: key,
                qr_url: url,
                status: final(ui).status,
                ..*old(ui)
            }),
        },
{
    match result {
        Err(e) => {
            ui.status = e;
        },
        Ok((key, url)) => {
            ui.qr_key = key;
            ui.qr_url = url;
            ui.status = String::from_str("请用网易云音乐扫码并确认，然后点击检查状态。");
        },
    }
}

/// The key of the QR login to poll, if one is shown.
pub fn qr_to_poll(ui: &UiState) -> (r: Option<String>)
    ensures
        ui.qr_key@.len() == 0 ==> r is None,
        ui.qr_key@.len() > 0 ==> r == Some(ui.qr_key),
{
    if ui.qr_key.unicode_len() == 0 {
        None
    } else {
        Some(ui.qr_key.clone())
    }
}

/// Shows the outcome of a poll of the QR login: logged in with a cookie, still
/// waiting, or the error.
pub fn finish_qr_poll(ui: &mut UiState, result: Result<Option<String>, String>)
    ensures
        match result {
            Err(e) => final(ui).status@ == e@ && *final(ui) == with_status(*old(ui), final(ui).status),
            Ok(None) => final(ui).status@ == "等待扫码或手机确认…"@ && *final(ui) == with_status(
                *old(ui),
                final(ui).status,
            ),
            Ok(Some(cookie)) => {
                &&& final(ui).qr_key@.len() == 0
                &&& final(ui).qr_url@.len() == 0
                &&& final(ui).status@ == "网易云登录成功。"@
                &&& *final(ui) == (UiState {
                    netease_cookie: cookie,
                    qr_key: final(ui).qr_key,
                    qr_url: final(ui).qr_url,
                    status: final(ui).status,
                    ..*old(ui)
                })
            },
        },
{
    match result {
        Err(e) => {
            ui.status = e;
        },
        Ok(None) => {
            ui.status = String::from_str("等待扫码或手机确认…");
        },
        Ok(Some(cookie)) => {
            ui.netease_cookie = cookie;
            ui.qr_key = String::new();
            ui.qr_url = String::new();
            ui.status = String::from_str("网易云登录成功。");
        },
    }
}

/// The percent-encoding of the UTF-8 bytes of `value`.
pub fn percent_encode(value: &str) -> (r: String)
    ensures
        r@ == percent_encoded(value.spec_bytes()),
{
    crate::text::percent_encode(value)
}

/// The address of a QR code image of `value`.
pub open spec fn qr_image_address(value: Seq<char>) -> Seq<char> {
    "https://api.qrserver.com/v1/create-qr-code/?size=260x260&data="@ + percent_encoded(
        vstd::utf8::encode_utf8(value),
    )
}

/// The address of a QR code image of `value`.
pub fn qr_image_url(value: &str) -> (r: String)
    ensures
        r@ == qr_image_address(value@),
{
    let mut s = String::from_str("https://api.qrserver.com/v1/create-qr-code/?size=260x260&data=");
    let encoded = percent_encode(value);
    s.append(encoded.as_str());
    s
}

/// The progress of an import in percent, where there is anything to send;
/// the product saturates as the screen computes it.
pub fn progress_percent(sent: u64, total: u64) -> (r: Option<u64>)
    ensures
        total == 0 ==> r is None,
        total > 0 ==> r == Some(percent_of(sent, total)),
{
    if total == 0 {
        None
    } else {
        let scaled: u64 = if sent > u64::MAX / 100 {
            u64::MAX
        } else {
            sent * 100
        };
        Some(scaled / total)
    }
}

/// The label of a cloud song in the picker: its name, a dash and its artists.
pub open spec fn cloud_label(name: Seq<char>, artists: Seq<String>) -> Seq<char> {
    name + " — "@ + joined(artists, " / "@)
}

/// Texts joined by a separator.
pub open spec fn joined(items: Seq<String>, sep: Seq<char>) -> Seq<char>
    decreases items.len(),
{
    if items.len() == 0 {
        Seq::empty()
    } else if items.len() == 1 {
        items[0]@
    } else {
        joined(items.drop_last(), sep) + sep + items.last()@
    }
}

/// The label of a cloud song in the picker.
pub fn cloud_song_label(song: &CloudSong) -> (r: String)
    ensures
        r@ == cloud_label(song.name@, song.artists@),
{
    let mut s = song.name.clone();
    s.append(" — ");
    let ghost head = s@;
    let mut i: usize = 0;
    while i < song.artists.len()
        invariant
            i <= song.artists@.len(),
            s@ == head + joined(song.artists@.take(i as int), " / "@),
        decreases song.artists@.len() - i,
    {
        if i > 0 {
            s.append(" / ");
        }
        s.append(song.artists[i].as_str());
        assert(song.artists@.take(i as int + 1).drop_last() =~= song.artists@.take(i as int));
        i = i + 1;
    }
    assert(song.artists@.take(song.artists@.len() as int) =~= song.artists@);
    s
}


/// One widget of the plugin's screen.
#[derive(Debug)]
pub enum Widget {
    Text { content: String, size: u32, color: &'static str },
    /// A choice among `options`, each a label and the value it sends.
    Select { value: String, event: &'static str, options: Vec<(String, String)> },
    Button { label: &'static str, event: &'static str, background: &'static str },
    Input { placeholder: &'static str, value: String, event: &'static str },
    Image { src: String, width: u32, height: u32 },
    Progress { value: u64, max: u64 },
}

/// The abstract value of a [`Widget`].
pub enum WidgetView {
    Text { content: Seq<char>, size: u32, color: Seq<char> },
    Select { value: Seq<char>, event: Seq<char>, options: Seq<(Seq<char>, Seq<char>)> },
    Button { label: Seq<char>, event: Seq<char>, background: Seq<char> },
    Input { placeholder: Seq<char>, value: Seq<char>, event: Seq<char> },
    Image { src: Seq<char>, width: u32, height: u32 },
    Progress { value: u64, max: u64 },
}

impl View for Widget {
    type V = WidgetView;

    open spec fn view(&self) -> WidgetView {
        match self {
            Widget::Text { content, size, color } => WidgetView::Text {
                content: content@,
                size: *size,
                color: color@,
            },
            Widget::Select { value, event, options } => WidgetView::Select {
                value: value@,
                event: event@,
                options: options.deep_view(),
            },
            Widget::Button { label, event, background } => WidgetView::Button {
                label: label@,
                event: event@,
                background: background@,
            },
            Widget::Input { placeholder, value, event } => WidgetView::Input {
                placeholder: placeholder@,
                value: value@,
                event: event@,
            },
            Widget::Image { src, width, height } => WidgetView::Image {
                src: src@,
                width: *width,
                height: *height,
            },
            Widget::Progress { value, max } => WidgetView::Progress { value: *value, max: *max },
        }
    }
}

/// The plugin's screen: a header, the card of local music, the card of cloud
/// music and a footer with the progress and status.
#[derive(Debug)]
pub struct Screen {
    pub header: Vec<Widget>,
    pub local: Vec<Widget>,
    pub cloud: Vec<Widget>,
    pub footer: Vec<Widget>,
}

/// The abstract widgets of a list.
pub open spec fn widgets_view(w: Seq<Widget>) -> Seq<WidgetView> {
    w.map_values(|x: Widget| x@)
}

/// The device choices: each device's name, sending its address.
pub open spec fn device_options(devices: Seq<crate::plugin::state::DeviceInfo>) -> Seq<(Seq<char>, Seq<char>)> {
    devices.map_values(|d: crate::plugin::state::DeviceInfo| (d.name@, d.addr@))
}

/// The song choices: each song's label, sending its index.
pub open spec fn song_options(songs: Seq<CloudSong>) -> Seq<(Seq<char>, Seq<char>)> {
    Seq::new(songs.len(), |i: int| (cloud_label(songs[i].name@, songs[i].artists@), decimal(i as nat)))
}

/// The header: title, explanation and the device choice.
pub open spec fn header_widgets(ui: UiState) -> Seq<WidgetView> {
    seq![
        WidgetView::Text { content: "Lyra Import"@, size: 28, color: "#f4f4f5"@ },
        WidgetView::Text {
            content: "将本地 MP3 或网易云音乐导入 com.canopus.lyraimport 快应用。"@,
            size: 14,
            color: "#a1a1aa"@,
        },
        WidgetView::Text { content: "目标设备"@, size: 15, color: "#a1a1aa"@ },
        WidgetView::Select {
            value: ui.selected_addr@,
            event: EVENT_DEVICE@,
            options: device_options(ui.devices@),
        },
        WidgetView::Button { label: "刷新设备"@, event: EVENT_REFRESH@, background: "#27272a"@ },
    ]
}

/// The card of local music, with the summaries of the picked files.
pub open spec fn local_widgets(ui: UiState, audio: Seq<char>, cover: Seq<char>, lyrics: Seq<char>) -> Seq<WidgetView> {
    seq![
        WidgetView::Text { content: "本地音乐"@, size: 22, color: "#f4f4f5"@ },
        WidgetView::Text { content: audio, size: 14, color: "#d4d4d8"@ },
        WidgetView::Button { label: "选择 MP3"@, event: EVENT_PICK_AUDIO@, background: "#2563eb"@ },
        WidgetView::Text { content: cover, size: 14, color: "#d4d4d8"@ },
        WidgetView::Button {
            label: "选择封面（可选）"@,
            event: EVENT_PICK_COVER@,
            background: "#4f46e5"@,
        },
        WidgetView::Text { content: lyrics, size: 14, color: "#d4d4d8"@ },
        WidgetView::Button {
            label: "选择歌词（可选）"@,
            event: EVENT_PICK_LYRICS@,
            background: "#4f46e5"@,
        },
        WidgetView::Input { placeholder: "曲名"@, value: ui.track_name@, event: EVENT_NAME@ },
        WidgetView::Input { placeholder: "歌手（可空）"@, value: ui.artist@, event: EVENT_ARTIST@ },
        WidgetView::Input { placeholder: "专辑（可空）"@, value: ui.album@, event: EVENT_ALBUM@ },
        WidgetView::Input {
            placeholder: "时长毫秒（未知填 0）"@,
            value: decimal(ui.duration_ms as nat),
            event: EVENT_DURATION@,
        },
        WidgetView::Button {
            label: "导入本地音乐"@,
            event: EVENT_START_LOCAL@,
            background: "#16a34a"@,
        },
    ]
}

/// The card of cloud music: the QR login while one is shown, the search, and
/// the song choice once there are results.
pub open spec fn cloud_widgets(ui: UiState) -> Seq<WidgetView> {
    let top = seq![
        WidgetView::Text { content: "网易云音乐"@, size: 22, color: "#f4f4f5"@ },
        WidgetView::Input {
            placeholder: "Cookie（可扫码自动填写）"@,
            value: ui.netease_cookie@,
            event: EVENT_COOKIE@,
        },
        WidgetView::Button {
            label: "生成登录二维码"@,
            event: EVENT_QR_BEGIN@,
            background: "#dc2626"@,
        },
    ];
    let qr = if ui.qr_url@.len() > 0 {
        seq![
            WidgetView::Image { src: qr_image_address(ui.qr_url@), width: 220, height: 220 },
            WidgetView::Button {
                label: "检查扫码状态"@,
                event: EVENT_QR_POLL@,
                background: "#b91c1c"@,
            },
        ]
    } else {
        seq![]
    };
    let search = seq![
        WidgetView::Input { placeholder: "搜索歌曲"@, value: ui.netease_query@, event: EVENT_QUERY@ },
        WidgetView::Button {
            label: "搜索网易云"@,
            event: EVENT_SEARCH_CLOUD@,
            background: "#2563eb"@,
        },
    ];
    let results = if ui.netease_results@.len() > 0 {
        seq![
            WidgetView::Select {
                value: decimal(ui.netease_selected as nat),
                event: EVENT_CLOUD_SELECT@,
                options: song_options(ui.netease_results@),
            },
            WidgetView::Button {
                label: "下载并导入所选歌曲"@,
                event: EVENT_START_CLOUD@,
                background: "#16a34a"@,
            },
        ]
    } else {
        seq![]
    };
    top + qr + search + results
}

/// The footer: the progress while there is anything to send, the status, and
/// the cancel button while an import runs.
pub open spec fn footer_widgets(ui: UiState) -> Seq<WidgetView> {
    let progress = if ui.total > 0 {
        seq![WidgetView::Progress { value: percent_of(ui.sent, ui.total), max: 100 }]
    } else {
        seq![]
    };
    let cancel = if ui.active {
        seq![WidgetView::Button { label: "取消导入"@, event: EVENT_CANCEL@, background: "#7f1d1d"@ }]
    } else {
        seq![]
    };
    progress + seq![WidgetView::Text { content: ui.status@, size: 14, color: "#60a5fa"@ }] + cancel
}

fn text_widget(content: &str, size: u32, color: &'static str) -> (w: Widget)
    ensures
        w@ == (WidgetView::Text { content: content@, size, color: color@ }),
{
    Widget::Text { content: String::from_str(content), size, color }
}

fn push_widget(list: &mut Vec<Widget>, w: Widget)
    ensures
        widgets_view(final(list)@) == widgets_view(old(list)@).push(w@),
{
    let ghost before = list@;
    list.push(w);
    assert(widgets_view(list@) =~= widgets_view(before).push(w@));
}

fn decimal_text(n: u64) -> (r: String)
    ensures
        r@ == decimal(n as nat),
{
    let mut s = String::new();
    push_decimal(&mut s, n);
    assert(s@ =~= decimal(n as nat));
    s
}

fn device_choices(devices: &Vec<crate::plugin::state::DeviceInfo>) -> (r: Vec<(String, String)>)
    ensures
        r.deep_view() == device_options(devices@),
{
    let mut out: Vec<(String, String)> = Vec::new();
    let mut i: usize = 0;
    while i < devices.len()
        invariant
            i <= devices@.len(),
            out.deep_view() == device_options(devices@).take(i as int),
        decreases devices@.len() - i,
    {
        let ghost before = out.deep_view();
        out.push((devices[i].name.clone(), devices[i].addr.clone()));
        assert(out.deep_view() =~= before.push((devices@[i as int].name@, devices@[i as int].addr@)));
        assert(device_options(devices@).take(i as int + 1) =~= device_options(devices@).take(
            i as int,
        ).push((devices@[i as int].name@, devices@[i as int].addr@)));
        i = i + 1;
    }
    assert(device_options(devices@).take(devices@.len() as int) =~= device_options(devices@));
    out
}

fn song_choices(songs: &Vec<CloudSong>) -> (r: Vec<(String, String)>)
    ensures
        r.deep_view() == song_options(songs@),
{
    let mut out: Vec<(String, String)> = Vec::new();
    let mut i: usize = 0;
    while i < songs.len()
        invariant
            i <= songs@.len(),
            out.deep_view() == song_options(songs@).take(i as int),
        decreases songs@.len() - i,
    {
        let ghost before = out.deep_view();
        let label = cloud_song_label(&songs[i]);
        let index = decimal_text(i as u64);
        out.push((label, index));
        assert(out.deep_view() =~= before.push(song_options(songs@)[i as int]));
        assert(song_options(songs@).take(i as int + 1) =~= song_options(songs@).take(i as int).push(
            song_options(songs@)[i as int],
        ));
        i = i + 1;
    }
    assert(song_options(songs@).take(songs@.len() as int) =~= song_options(songs@));
    out
}

/// The percent shown by the progress bar.
pub open spec fn percent_of(sent: u64, total: u64) -> u64 {
    ((if sent * 100 > u64::MAX {
        u64::MAX as int
    } else {
        sent * 100
    }) / (total as int)) as u64
}

/// The plugin's screen for `ui`. The summaries of the picked files (name and
/// size in MiB) are made by the caller.
pub fn screen(ui: &UiState, audio_summary: &str, cover_summary: &str, lyrics_summary: &str) -> (s: Screen)
    ensures
        widgets_view(s.header@) == header_widgets(*ui),
        widgets_view(s.local@) == local_widgets(*ui, audio_summary@, cover_summary@, lyrics_summary@),
        widgets_view(s.cloud@) == cloud_widgets(*ui),
        widgets_view(s.footer@) == footer_widgets(*ui),
{
    let mut header: Vec<Widget> = Vec::new();
    push_widget(&mut header, text_widget("Lyra Import", 28, "#f4f4f5"));
    push_widget(
        &mut header,
        text_widget("将本地 MP3 或网易云音乐导入 com.canopus.lyraimport 快应用。", 14, "#a1a1aa"),
    );
    push_widget(&mut header, text_widget("目标设备", 15, "#a1a1aa"));
    push_widget(
        &mut header,
        Widget::Select {
            value: ui.selected_addr.clone(),
            event: EVENT_DEVICE,
            options: device_choices(&ui.devices),
        },
    );
    push_widget(&mut header, Widget::Button { label: "刷新设备", event: EVENT_REFRESH, background: "#27272a" });
    assert(widgets_view(header@) =~= header_widgets(*ui));

    let mut local: Vec<Widget> = Vec::new();
    push_widget(&mut local, text_widget("本地音乐", 22, "#f4f4f5"));
    push_widget(&mut local, text_widget(audio_summary, 14, "#d4d4d8"));
    push_widget(&mut local, Widget::Button { label: "选择 MP3", event: EVENT_PICK_AUDIO, background: "#2563eb" });
    push_widget(&mut local, text_widget(cover_summary, 14, "#d4d4d8"));
    push_widget(
        &mut local,
        Widget::Button { label: "选择封面（可选）", event: EVENT_PICK_COVER, background: "#4f46e5" },
    );
    push_widget(&mut local, text_widget(lyrics_summary, 14, "#d4d4d8"));
    push_widget(
        &mut local,
        Widget::Button { label: "选择歌词（可选）", event: EVENT_PICK_LYRICS, background: "#4f46e5" },
    );
    push_widget(&mut local, Widget::Input { placeholder: "曲名", value: ui.track_name.clone(), event: EVENT_NAME });
    push_widget(&mut local, Widget::Input { placeholder: "歌手（可空）", value: ui.artist.clone(), event: EVENT_ARTIST });
    push_widget(&mut local, Widget::Input { placeholder: "专辑（可空）", value: ui.album.clone(), event: EVENT_ALBUM });
    push_widget(
        &mut local,
        Widget::Input {
            placeholder: "时长毫秒（未知填 0）",
            value: decimal_text(ui.duration_ms as u64),
            event: EVENT_DURATION,
        },
    );
    push_widget(
        &mut local,
        Widget::Button { label: "导入本地音乐", event: EVENT_START_LOCAL, background: "#16a34a" },
    );
    assert(widgets_view(local@) =~= local_widgets(*ui, audio_summary@, cover_summary@, lyrics_summary@));

    let mut cloud: Vec<Widget> = Vec::new();
    push_widget(&mut cloud, text_widget("网易云音乐", 22, "#f4f4f5"));
    push_widget(
        &mut cloud,
        Widget::Input { placeholder: "Cookie（可扫码自动填写）", value: ui.netease_cookie.clone(), event: EVENT_COOKIE },
    );
    push_widget(
        &mut cloud,
        Widget::Button { label: "生成登录二维码", event: EVENT_QR_BEGIN, background: "#dc2626" },
    );
    if ui.qr_url.unicode_len() > 0 {
        push_widget(&mut cloud, Widget::Image { src: qr_image_url(ui.qr_url.as_str()), width: 220, height: 220 });
        push_widget(
            &mut cloud,
            Widget::Button { label: "检查扫码状态", event: EVENT_QR_POLL, background: "#b91c1c" },
        );
    }
    push_widget(&mut cloud, Widget::Input { placeholder: "搜索歌曲", value: ui.netease_query.clone(), event: EVENT_QUERY });
    push_widget(
        &mut cloud,
        Widget::Button { label: "搜索网易云", event: EVENT_SEARCH_CLOUD, background: "#2563eb" },
    );
    if ui.netease_results.len() > 0 {
        push_widget(
            &mut cloud,
            Widget::Select {
                value: decimal_text(ui.netease_selected as u64),
                event: EVENT_CLOUD_SELECT,
                options: song_choices(&ui.netease_results),
            },
        );
        push_widget(
            &mut cloud,
            Widget::Button { label: "下载并导入所选歌曲", event: EVENT_START_CLOUD, background: "#16a34a" },
        );
    }
    assert(widgets_view(cloud@) =~= cloud_widgets(*ui));

    let mut footer: Vec<Widget> = Vec::new();
    match progress_percent(ui.sent, ui.total) {
        Some(p) => push_widget(&mut footer, Widget::Progress { value: p, max: 100 }),
        None => {},
    }
    push_widget(&mut footer, text_widget(ui.status.as_str(), 14, "#60a5fa"));
    if ui.active {
        push_widget(&mut footer, Widget::Button { label: "取消导入", event: EVENT_CANCEL, background: "#7f1d1d" });
    }
    assert(widgets_view(footer@) =~= footer_widgets(*ui));
    Screen { header, local, cloud, footer }
}

} // verus!
