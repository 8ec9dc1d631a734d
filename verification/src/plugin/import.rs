//! The sending side of the import protocol: one transaction carries one audio
//! file and at most one cover and one lyrics file, in chunks of at most 4096
//! bytes, each acknowledged before the next is sent.
use vstd::prelude::*;

use crate::codec::{base64_encode, base64_standard_encoded, crc32_fast};
use crate::model::opt_string_view;
use crate::plugin::state::{SelectedFile, UiState};
use crate::text::{crc32, hex8_lower, push_hex8_lower, str_eq, starts_with};

verus! {

pub const PROTOCOL_VERSION: u64 = 2;

pub const DEFAULT_CHUNK_BYTES: usize = 4096;

pub const MAX_CHUNK_BYTES: usize = 4096;

/// The package of the watch's import app, the only peer of the protocol.
pub const ROUTE_PACKAGE: &'static str = "com.canopus.lyraimport";

/// One file of an import.
#[derive(Clone, Debug)]
pub struct ImportAsset {
    pub kind: &'static str,
    pub path: String,
    pub size: u64,
    pub extension: Option<&'static str>,
    pub format: Option<&'static str>,
}

impl ImportAsset {
    /// A copy of this file's description.
    pub fn duplicate(&self) -> (r: ImportAsset)
        ensures
            r == *self,
    {
        ImportAsset {
            kind: self.kind,
            path: self.path.clone(),
            size: self.size,
            extension: self.extension,
            format: self.format,
        }
    }

    /// The audio file.
    pub fn audio(path: String, size: u64) -> (a: ImportAsset)
        ensures
            a.kind@ == "audio"@,
            a.path == path,
            a.size == size,
            a.extension is None,
            a.format is None,
    {
        proof {
            reveal_strlit("audio");
        }
        ImportAsset { kind: "audio", path, size, extension: None, format: None }
    }

    /// A cover image with its file extension.
    pub fn cover(path: String, size: u64, extension: &'static str) -> (a: ImportAsset)
        ensures
            a.kind@ == "cover"@,
            a.path == path,
            a.size == size,
            a.extension == Some(extension),
            a.format is None,
    {
        ImportAsset { kind: "cover", path, size, extension: Some(extension), format: None }
    }

    /// A lyrics file with its format.
    pub fn lyrics(path: String, size: u64, format: &'static str) -> (a: ImportAsset)
        ensures
            a.kind@ == "lyrics"@,
            a.path == path,
            a.size == size,
            a.extension is None,
            a.format == Some(format),
    {
        ImportAsset { kind: "lyrics", path, size, extension: None, format: Some(format) }
    }
}

/// An audio file at `path` of `size` bytes.
pub open spec fn is_audio(a: ImportAsset, path: String, size: u64) -> bool {
    a.kind@ == "audio"@ && a.path == path && a.size == size && a.extension is None && a.format is None
}

/// A cover image at `path` of `size` bytes with the extension `ext`.
pub open spec fn is_cover(a: ImportAsset, path: String, size: u64, ext: Seq<char>) -> bool {
    &&& a.kind@ == "cover"@
    &&& a.path == path
    &&& a.size == size
    &&& a.extension matches Some(e) && e@ == ext
    &&& a.format is None
}

/// A lyrics file at `path` of `size` bytes in the format `format`.
pub open spec fn is_lyrics(a: ImportAsset, path: String, size: u64, format: Seq<char>) -> bool {
    &&& a.kind@ == "lyrics"@
    &&& a.path == path
    &&& a.size == size
    &&& a.extension is None
    &&& a.format matches Some(f) && f@ == format
}

/// The import starts with one audio file and has at most three files.
pub open spec fn assets_start_ok(s: Seq<ImportAsset>) -> bool {
    0 < s.len() <= 3 && s[0].kind@ == "audio"@
}

/// No file is empty and no kind appears twice.
pub open spec fn assets_distinct(s: Seq<ImportAsset>) -> bool {
    &&& forall|i: int| 0 <= i < s.len() ==> #[trigger] s[i].size > 0
    &&& forall|i: int, j: int|
        0 <= i < j < s.len() ==> #[trigger] s[i].kind@ != #[trigger] s[j].kind@
}

/// A kind of file that the protocol carries.
pub open spec fn known_kind(kind: Seq<char>) -> bool {
    kind == "audio"@ || kind == "cover"@ || kind == "lyrics"@
}

/// Every file is audio, a cover or lyrics.
pub open spec fn kinds_known(s: Seq<ImportAsset>) -> bool {
    forall|i: int| 0 <= i < s.len() ==> known_kind(#[trigger] s[i].kind@)
}

/// The message refusing an import that does not start with one audio file.
pub open spec fn need_audio_first() -> Seq<char> {
    "导入必须以一个音频资源开始"@
}

/// The message refusing an empty or repeated file.
pub open spec fn empty_or_repeated() -> Seq<char> {
    "导入资源为空或重复"@
}

/// The message refusing a file of a kind that the protocol does not carry.
pub open spec fn unknown_kind() -> Seq<char> {
    "不支持的导入资源类型"@
}

/// Checks that an import starts with one audio file, has no empty or repeated
/// file, and carries only audio, a cover and lyrics.
pub fn validate_assets(assets: &[ImportAsset]) -> (r: Result<(), String>)
    ensures
        !assets_start_ok(assets@) ==> (r matches Err(e) && e@ == need_audio_first()),
        assets_start_ok(assets@) && !assets_distinct(assets@) ==> (r matches Err(e) && e@
            == empty_or_repeated()),
        assets_start_ok(assets@) && assets_distinct(assets@) && !kinds_known(assets@) ==> (
        r matches Err(e) && e@ == unknown_kind()),
        r is Ok <==> assets_start_ok(assets@) && assets_distinct(assets@) && kinds_known(assets@),
{
    proof {
        reveal_strlit("audio");
        reveal_strlit("cover");
        reveal_strlit("lyrics");
    }
    if assets.len() == 0 || assets.len() > 3 || !str_eq(assets[0].kind, "audio") {
        return Err(String::from_str("导入必须以一个音频资源开始"));
    }
    let mut i: usize = 0;
    while i < assets.len()
        invariant
            i <= assets@.len(),
            assets_start_ok(assets@),
            forall|j: int| 0 <= j < i ==> #[trigger] assets@[j].size > 0,
            forall|a: int, b: int|
                0 <= a < b < i ==> #[trigger] assets@[a].kind@ != #[trigger] assets@[b].kind@,
        decreases assets@.len() - i,
    {
        if assets[i].size == 0 {
            return Err(String::from_str("导入资源为空或重复"));
        }
        let mut j: usize = 0;
        while j < i
            invariant
                i < assets@.len(),
                assets_start_ok(assets@),
                j <= i,
                forall|a: int| 0 <= a < j ==> assets@[a].kind@ != assets@[i as int].kind@,
            decreases i - j,
        {
            if str_eq(assets[j].kind, assets[i].kind) {
                return Err(String::from_str("导入资源为空或重复"));
            }
            j = j + 1;
        }
        i = i + 1;
    }
    let mut k: usize = 0;
    while k < assets.len()
        invariant
            k <= assets@.len(),
            assets_start_ok(assets@),
            assets_distinct(assets@),
            forall|j: int| 0 <= j < k ==> known_kind(#[trigger] assets@[j].kind@),
        decreases assets@.len() - k,
    {
        let kind = assets[k].kind;
        if !str_eq(kind, "audio") && !str_eq(kind, "cover") && !str_eq(kind, "lyrics") {
            return Err(String::from_str("不支持的导入资源类型"));
        }
        k = k + 1;
    }
    Ok(())
}

/// The largest file of each kind.
pub open spec fn size_limit(kind: Seq<char>) -> nat {
    if kind == "audio"@ {
        64 * 1024 * 1024
    } else if kind == "cover"@ {
        4 * 1024 * 1024
    } else {
        2 * 1024 * 1024
    }
}

/// The extensions allowed for each kind; `None` for an unknown kind.
pub open spec fn allowed_extensions(kind: Seq<char>) -> Option<Seq<Seq<char>>> {
    if kind == "audio"@ {
        Some(seq!["mp3"@])
    } else if kind == "cover"@ {
        Some(seq!["jpg"@, "jpeg"@, "png"@])
    } else if kind == "lyrics"@ {
        Some(seq!["lrc"@, "json"@, "txt"@])
    } else {
        None
    }
}

/// What `std::path::Path::extension` gives for a file name, as text; `None`
/// when there is no extension or it is not UTF-8.
pub uninterp spec fn path_extension_of(name: Seq<char>) -> Option<Seq<char>>;

/// A bare file name: no path separator of any platform (`/`, `\\`) and no
/// drive prefix (`:`), so that `Path` sees it as one component.
pub open spec fn plain_file_name(name: Seq<char>) -> bool {
    forall|i: int| 0 <= i < name.len() ==> #[trigger] name[i] != '/' && name[i] != '\\' && name[i] != ':'
}

/// The extension of a bare file name as `Path::extension` documents it: the
/// text after the final `.`; none without a `.`, when the only `.` leads the
/// name, or for `..`.
pub open spec fn name_extension(name: Seq<char>) -> Option<Seq<char>> {
    if name == ".."@ || !name.contains('.') {
        None
    } else {
        let i = choose|i: int| 0 <= i < name.len() && name[i] == '.' && forall|j: int|
            i < j < name.len() ==> name[j] != '.';
        if i == 0 {
            None
        } else {
            Some(name.skip(i + 1))
        }
    }
}

/// The extension of a file name (`Path::new(name).extension()` as a string).
/// The result is named `path_extension_of`; for a bare file name it is the
/// documented rule `name_extension` (a `&str` is always valid UTF-8, so the
/// conversion back to text never fails). How `Path` splits other names into
/// components depends on the platform, and is left to the name.
#[verifier::external_body]
fn path_extension(name: &str) -> (r: Option<String>)
    ensures
        match r {
            Some(e) => path_extension_of(name@) == Some(e@),
            None => path_extension_of(name@) is None,
        },
        plain_file_name(name@) ==> match r {
            Some(e) => name_extension(name@) == Some(e@),
            None => name_extension(name@) is None,
        },
{
    std::path::Path::new(name).extension().and_then(|value| value.to_str()).map(String::from)
}

/// The extension of a picked file's name: by the documented rule for a bare
/// file name, as `Path` gives it otherwise.
pub open spec fn picked_extension(name: Seq<char>) -> Option<Seq<char>> {
    if plain_file_name(name) {
        name_extension(name)
    } else {
        path_extension_of(name)
    }
}

/// The outcome of checking a picked file.
pub open spec fn picked_file_ok(name: Seq<char>, kind: Seq<char>, is_file: bool, len: u64) -> Result<
    (),
    Seq<char>,
> {
    let ext = crate::text::ascii_lowercase(
        match picked_extension(name) {
            Some(e) => e,
            None => Seq::empty(),
        },
    );
    if !is_file || len == 0 {
        Err("selected file is empty"@)
    } else {
        match allowed_extensions(kind) {
            None => Err("unknown asset kind"@),
            Some(allowed) => if !allowed.contains(ext) {
                Err("unsupported "@ + kind + " file extension"@)
            } else if len > size_limit(kind) {
                Err("selected "@ + kind + " file exceeds import limit"@)
            } else {
                Ok(())
            },
        }
    }
}

/// Checks a picked file of kind `kind`: present, of an allowed extension and
/// within the kind's size limit. `is_file` and `len` come from the file system.
pub fn check_picked_file(path: &str, name: &str, kind: &str, is_file: bool, len: u64) -> (r: Result<
    SelectedFile,
    String,
>)
    ensures
        match picked_file_ok(name@, kind@, is_file, len) {
            Ok(()) => (r matches Ok(f) && f.name@ == name@ && f.path@ == path@ && f.size == len),
            Err(e) => (r matches Err(m) && m@ == e),
        },
{
    if !is_file || len == 0 {
        return Err(String::from_str("selected file is empty"));
    }
    proof {
        reveal_strlit("audio");
        reveal_strlit("cover");
        reveal_strlit("lyrics");
    }
    let ext = match path_extension(name) {
        Some(e) => crate::text::to_ascii_lowercase(e.as_str()),
        None => {
            let e = String::new();
            assert(crate::text::ascii_lowercase(Seq::<char>::empty()) =~= Seq::<char>::empty());
            e
        },
    };
    let allowed = if str_eq(kind, "audio") {
        str_eq(ext.as_str(), "mp3")
    } else if str_eq(kind, "cover") {
        str_eq(ext.as_str(), "jpg") || str_eq(ext.as_str(), "jpeg") || str_eq(ext.as_str(), "png")
    } else if str_eq(kind, "lyrics") {
        str_eq(ext.as_str(), "lrc") || str_eq(ext.as_str(), "json") || str_eq(ext.as_str(), "txt")
    } else {
        return Err(String::from_str("unknown asset kind"));
    };
    proof {
        let list = allowed_extensions(kind@).unwrap();
        if kind@ == "audio"@ {
            assert(list.contains(ext@) == (ext@ == "mp3"@)) by {
                if ext@ == "mp3"@ {
                    assert(list[0] == ext@);
                }
            }
        } else if kind@ == "cover"@ {
            assert(list.contains(ext@) == (ext@ == "jpg"@ || ext@ == "jpeg"@ || ext@ == "png"@)) by {
                if ext@ == "jpg"@ {
                    assert(list[0] == ext@);
                } else if ext@ == "jpeg"@ {
                    assert(list[1] == ext@);
                } else if ext@ == "png"@ {
                    assert(list[2] == ext@);
                }
            }
        } else {
            assert(list.contains(ext@) == (ext@ == "lrc"@ || ext@ == "json"@ || ext@ == "txt"@)) by {
                if ext@ == "lrc"@ {
                    assert(list[0] == ext@);
                } else if ext@ == "json"@ {
                    assert(list[1] == ext@);
                } else if ext@ == "txt"@ {
                    assert(list[2] == ext@);
                }
            }
        }
    }
    if !allowed {
        let mut m = String::from_str("unsupported ");
        m.append(kind);
        m.append(" file extension");
        return Err(m);
    }
    let limit: u64 = if str_eq(kind, "audio") {
        64 * 1024 * 1024
    } else if str_eq(kind, "cover") {
        4 * 1024 * 1024
    } else {
        2 * 1024 * 1024
    };
    if len > limit {
        let mut m = String::from_str("selected ");
        m.append(kind);
        m.append(" file exceeds import limit");
        return Err(m);
    }
    Ok(SelectedFile { name: String::from_str(name), path: String::from_str(path), size: len })
}


/// What a running import waits for from the watch.
#[derive(Clone, Copy, Debug, PartialEq, Eq, Structural)]
pub enum Awaiting {
    Hello,
    Ready,
    Ack,
    AssetsDone,
    Done,
}

/// The track that an import publishes on the watch.
#[derive(Clone, Debug)]
pub struct ImportTrack {
    pub id: u64,
    pub name: String,
    pub artists: Vec<String>,
    pub album: String,
    pub album_id: u64,
    pub duration_ms: u32,
}

impl ImportTrack {
    /// A copy of this track with the same text.
    pub fn duplicate(&self) -> (r: ImportTrack)
        ensures
            r.id == self.id,
            r.name == self.name,
            r.artists@ == self.artists@,
            r.album == self.album,
            r.album_id == self.album_id,
            r.duration_ms == self.duration_ms,
    {
        let artists = self.artists.clone();
        assert(artists@ =~= self.artists@);
        ImportTrack {
            id: self.id,
            name: self.name.clone(),
            artists,
            album: self.album.clone(),
            album_id: self.album_id,
            duration_ms: self.duration_ms,
        }
    }
}

/// A running import. The caller holds the files and reads them where a step says.
#[derive(Debug)]
pub struct Transfer {
    pub addr: String,
    pub id: String,
    pub track: ImportTrack,
    pub assets: Vec<ImportAsset>,
    pub asset_index: usize,
    pub chunk_bytes: usize,
    pub seq: u64,
    pub offset: u64,
    pub sent_total: u64,
    pub awaiting: Awaiting,
}

/// The bytes of the first `n` files.
pub open spec fn sizes_before(assets: Seq<ImportAsset>, n: int) -> nat
    decreases n,
{
    if n <= 0 {
        0
    } else {
        sizes_before(assets, n - 1) + assets[n - 1].size as nat
    }
}

/// The bytes of all files.
pub open spec fn total_size(assets: Seq<ImportAsset>) -> nat {
    sizes_before(assets, assets.len() as int)
}

/// The sum over fewer files is no larger.
pub proof fn lemma_sizes_before_monotone(assets: Seq<ImportAsset>, a: int, b: int)
    requires
        a <= b,
    ensures
        sizes_before(assets, a) <= sizes_before(assets, b),
    decreases b - a,
{
    if a < b {
        lemma_sizes_before_monotone(assets, a, b - 1);
    }
}

impl Transfer {
    /// The transfer's invariant: its files are valid, every byte sent is counted
    /// once, the position lies within the current file, and the position agrees
    /// with what the transfer waits for.
    pub open spec fn wf(&self) -> bool {
        let n = self.assets@.len();
        &&& assets_start_ok(self.assets@)
        &&& assets_distinct(self.assets@)
        &&& kinds_known(self.assets@)
        &&& total_size(self.assets@) <= u64::MAX
        &&& 1 <= self.chunk_bytes <= MAX_CHUNK_BYTES
        &&& self.asset_index <= n
        &&& self.sent_total == sizes_before(self.assets@, self.asset_index as int) + self.offset
        &&& self.seq <= self.offset
        &&& self.asset_index < n ==> self.offset <= self.assets@[self.asset_index as int].size
        &&& self.asset_index == n ==> self.offset == 0
        &&& match self.awaiting {
            Awaiting::Hello => self.asset_index == 0 && self.offset == 0,
            Awaiting::Ready => self.asset_index < n && self.offset == 0,
            Awaiting::Ack => self.asset_index < n && 0 < self.offset,
            Awaiting::AssetsDone => self.asset_index == n,
            Awaiting::Done => self.asset_index == n,
        }
    }

    /// The size of the file being sent.
    pub open spec fn current_size(&self) -> u64 {
        self.assets@[self.asset_index as int].size
    }

    /// The length of the next chunk: the chunk size, or what is left of the file.
    pub open spec fn chunk_len(&self) -> int {
        let left = self.current_size() - self.offset;
        if self.chunk_bytes < left {
            self.chunk_bytes as int
        } else {
            left
        }
    }
}

/// A message from the watch's import app: the members the protocol reads,
/// each `None` where the message lacks it or it has another JSON type.
#[derive(Clone, Debug)]
pub struct ImportReply {
    pub tag: Option<String>,
    pub id: Option<String>,
    pub version: Option<u64>,
    pub window: Option<u64>,
    /// The string items of `encodings`, empty where it is not an array.
    pub encodings: Vec<String>,
    pub max_chunk_bytes: Option<u64>,
    pub asset: Option<String>,
    pub next_seq: Option<u64>,
    pub next_offset: Option<u64>,
    pub received_bytes: Option<u64>,
    pub code: Option<String>,
    pub message: Option<String>,
}

/// A message to the watch's import app.
#[derive(Debug)]
pub enum ImportPacket {
    Hello { version: u64 },
    Begin { version: u64, id: String, track: ImportTrack, assets: Vec<ImportAsset> },
    Chunk {
        id: String,
        asset: &'static str,
        seq: u64,
        offset: u64,
        encoding: &'static str,
        data: String,
        crc32: String,
    },
    AssetEnd { id: String, asset: &'static str },
    Commit { id: String },
    Cancel { id: String },
}

/// What the caller does after a step of the import.
#[derive(Debug)]
pub enum ImportAction {
    /// The message was not for the running import; nothing changed.
    Ignore,
    /// Send this packet to the watch.
    Send(ImportPacket),
    /// Read `len` bytes of file `asset_index` from `offset`, then call `record_chunk`.
    ReadChunk { asset_index: usize, offset: u64, len: usize },
    /// The import is published; the transfer is over.
    Completed,
    /// The import failed with this message; the transfer is over.
    Failed(String),
}

/// `ui` with its status replaced.
pub open spec fn with_status(ui: UiState, status: String) -> UiState {
    UiState { status, ..ui }
}

/// The error of a reply that does not come from the expected peer, in the
/// expected state, for the running import.
pub open spec fn peer_error(t: Transfer, addr: Seq<char>, awaiting: Awaiting, id: Option<Seq<char>>) -> Option<
    Seq<char>,
> {
    if t.addr@ != addr || t.awaiting != awaiting {
        Some("意外的导入响应状态"@)
    } else if awaiting == Awaiting::Hello && id is None {
        None
    } else if id != Some(t.id@) {
        Some("导入响应 ID 不匹配"@)
    } else {
        None
    }
}

/// Checks that a reply comes from the transfer's peer, in the expected state,
/// with the transfer's id (a hello may come without one).
pub fn validate_peer(item: &Transfer, addr: &str, awaiting: Awaiting, id: &Option<String>) -> (r: Result<(), String>)
    ensures
        match peer_error(*item, addr@, awaiting, opt_string_view(*id)) {
            Some(e) => (r matches Err(m) && m@ == e),
            None => r is Ok,
        },
{
    if !str_eq(item.addr.as_str(), addr) || item.awaiting != awaiting {
        return Err(String::from_str("意外的导入响应状态"));
    }
    if awaiting == Awaiting::Hello && id.is_none() {
        return Ok(());
    }
    let same = match id {
        Some(v) => str_eq(v.as_str(), item.id.as_str()),
        None => false,
    };
    if !same {
        return Err(String::from_str("导入响应 ID 不匹配"));
    }
    Ok(())
}

/// Whether a message with this tag and id belongs to the running import: it
/// comes from the import's peer, and carries the import's id, or is a hello
/// that the import waits for.
pub open spec fn peer_matches(current: Option<Transfer>, addr: Seq<char>, tag: Seq<char>, id: Option<Seq<char>>) -> bool {
    match current {
        None => false,
        Some(t) => t.addr@ == addr && if tag == "lyra-import-hello"@ {
            t.awaiting == Awaiting::Hello
        } else {
            id == Some(t.id@)
        },
    }
}

/// Decides whether a message belongs to the running import.
pub fn matches_active_peer(current: &Option<Transfer>, addr: &str, tag: &str, id: &Option<String>) -> (r: bool)
    ensures
        r == peer_matches(*current, addr@, tag@, opt_string_view(*id)),
{
    match current {
        None => false,
        Some(item) => {
            if !str_eq(item.addr.as_str(), addr) {
                return false;
            }
            if str_eq(tag, "lyra-import-hello") {
                return item.awaiting == Awaiting::Hello;
            }
            match id {
                Some(v) => str_eq(v.as_str(), item.id.as_str()),
                None => false,
            }
        },
    }
}

/// The message refusing an import without a device.
pub open spec fn no_device() -> Seq<char> {
    "请选择已连接设备"@
}

/// Checks the arguments of a new import before its files are opened.
pub fn check_start(addr: &str, assets: &[ImportAsset]) -> (r: Result<(), String>)
    ensures
        addr@.len() == 0 ==> (r matches Err(e) && e@ == no_device()),
        addr@.len() > 0 && !assets_start_ok(assets@) ==> (r matches Err(e) && e@
            == need_audio_first()),
        addr@.len() > 0 && assets_start_ok(assets@) && !assets_distinct(assets@) ==> (r matches Err(
            e,
        ) && e@ == empty_or_repeated()),
        addr@.len() > 0 && assets_start_ok(assets@) && assets_distinct(assets@) && !kinds_known(
            assets@,
        ) ==> (r matches Err(e) && e@ == unknown_kind()),
        r is Ok <==> addr@.len() > 0 && assets_start_ok(assets@) && assets_distinct(assets@)
            && kinds_known(assets@),
{
    if addr.unicode_len() == 0 {
        return Err(String::from_str("请选择已连接设备"));
    }
    validate_assets(assets)
}

/// The number of bytes of a list of files, where it fits in 64 bits.
pub fn assets_total(assets: &Vec<ImportAsset>) -> (r: Option<u64>)
    ensures
        match r {
            Some(n) => n == total_size(assets@),
            None => total_size(assets@) > u64::MAX,
        },
{
    let mut total: u64 = 0;
    let mut i: usize = 0;
    while i < assets.len()
        invariant
            i <= assets@.len(),
            total == sizes_before(assets@, i as int),
        decreases assets@.len() - i,
    {
        if total > u64::MAX - assets[i].size {
            proof {
                lemma_sizes_before_monotone(assets@, i as int + 1, assets@.len() as int);
            }
            return None;
        }
        total = total + assets[i].size;
        i = i + 1;
    }
    Some(total)
}

/// Records a new import and says hello to the watch, unless one is running.
/// The files were checked by `check_start` and their sizes fit in 64 bits.
pub fn begin(
    current: &mut Option<Transfer>,
    ui: &mut UiState,
    addr: String,
    id: String,
    track: ImportTrack,
    assets: Vec<ImportAsset>,
) -> (r: Result<ImportPacket, String>)
    requires
        assets_start_ok(assets@),
        assets_distinct(assets@),
        kinds_known(assets@),
        total_size(assets@) <= u64::MAX,
    ensures
        *old(current) is Some ==> (r matches Err(e) && e@ == "已有导入任务正在运行"@)
            && *final(current) == *old(current) && *final(ui) == *old(ui),
        *old(current) is None ==> {
            &&& r matches Ok(ImportPacket::Hello { version }) && version == PROTOCOL_VERSION
            &&& *final(current) matches Some(t) && t.wf() && t.addr == addr && t.id == id
                && t.track == track && t.assets == assets && t.asset_index == 0
                && t.chunk_bytes == DEFAULT_CHUNK_BYTES && t.seq == 0 && t.offset == 0
                && t.sent_total == 0 && t.awaiting == Awaiting::Hello
            &&& final(ui).active && final(ui).sent == 0 && final(ui).total == total_size(assets@)
            &&& final(ui).status@ == "正在连接 Lyra Import 快应用…"@
            &&& *final(ui) == (UiState {
                active: true,
                sent: 0,
                total: final(ui).total,
                status: final(ui).status,
                ..*old(ui)
            })
        },
{
    if current.is_some() {
        return Err(String::from_str("已有导入任务正在运行"));
    }
    let total = match assets_total(&assets) {
        Some(n) => n,
        None => 0,
    };
    *current = Some(
        Transfer {
            addr,
            id,
            track,
            assets,
            asset_index: 0,
            chunk_bytes: DEFAULT_CHUNK_BYTES,
            seq: 0,
            offset: 0,
            sent_total: 0,
            awaiting: Awaiting::Hello,
        },
    );
    ui.active = true;
    ui.sent = 0;
    ui.total = total;
    ui.status = String::from_str("正在连接 Lyra Import 快应用…");
    Ok(ImportPacket::Hello { version: PROTOCOL_VERSION })
}

/// Ends the import with an error: the transfer is dropped and the screen says why.
pub fn fail(current: &mut Option<Transfer>, ui: &mut UiState, error: &str)
    ensures
        *final(current) is None,
        !final(ui).active,
        final(ui).status@ == "导入失败："@ + error@,
        *final(ui) == (UiState { active: false, status: final(ui).status, ..*old(ui) }),
{
    *current = None;
    let mut status = String::from_str("导入失败：");
    status.append(error);
    ui.active = false;
    ui.status = status;
}

/// Cancels the running import, if any: the transfer is dropped and, where one
/// ran, the peer's address and the cancel message are returned for sending.
pub fn cancel(current: &mut Option<Transfer>, ui: &mut UiState) -> (r: Option<(String, ImportPacket)>)
    ensures
        *final(current) is None,
        match *old(current) {
            None => r is None,
            Some(t) => {
                &&& r matches Some((addr, ImportPacket::Cancel { id }))
                &&& addr == t.addr
                &&& id == t.id
            },
        },
        !final(ui).active,
        final(ui).status@ == "已取消导入。"@,
        *final(ui) == (UiState { active: false, status: final(ui).status, ..*old(ui) }),
{
    let pending = match current.take() {
        Some(item) => Some((item.addr, ImportPacket::Cancel { id: item.id })),
        None => None,
    };
    ui.active = false;
    ui.status = String::from_str("已取消导入。");
    pending
}


/// The chunk size that a limit sent by the watch allows: from 1 to `MAX_CHUNK_BYTES`.
pub open spec fn clamp_chunk(max: u64) -> usize {
    if max < 1 {
        1
    } else if max > MAX_CHUNK_BYTES as u64 {
        MAX_CHUNK_BYTES
    } else {
        max as usize
    }
}

fn clamp_chunk_bytes(max: u64) -> (r: usize)
    ensures
        r == clamp_chunk(max),
{
    if max < 1 {
        1
    } else if max > MAX_CHUNK_BYTES as u64 {
        MAX_CHUNK_BYTES
    } else {
        max as usize
    }
}

/// Whether the watch offers base64 chunks.
pub open spec fn has_base64(encodings: Seq<String>) -> bool {
    exists|i: int| 0 <= i < encodings.len() && #[trigger] encodings[i]@ == "base64"@
}

/// The error of a hello from the watch, if any.
pub open spec fn hello_error(t: Transfer, addr: Seq<char>, r: ImportReply) -> Option<Seq<char>> {
    if !(r.version == Some(PROTOCOL_VERSION) && r.window == Some(1u64)) {
        Some("快应用不支持 Lyra Import v2 单窗口协议"@)
    } else if !has_base64(r.encodings@) {
        Some("快应用不支持 base64 分片"@)
    } else {
        peer_error(t, addr, Awaiting::Hello, None)
    }
}

/// The transfer after an accepted hello: the chunk size is what the watch allows
/// (4096 bytes where it says nothing) and the transfer waits for the first file.
pub open spec fn after_hello(t: Transfer, r: ImportReply) -> Transfer {
    let max = match r.max_chunk_bytes {
        Some(m) => m,
        None => DEFAULT_CHUNK_BYTES as u64,
    };
    Transfer { chunk_bytes: clamp_chunk(max), awaiting: Awaiting::Ready, ..t }
}

/// Two tracks with the same fields and artist names.
pub open spec fn same_track(a: ImportTrack, b: ImportTrack) -> bool {
    &&& a.id == b.id
    &&& a.name == b.name
    &&& a.artists@ == b.artists@
    &&& a.album == b.album
    &&& a.album_id == b.album_id
    &&& a.duration_ms == b.duration_ms
}

/// The begin message of a transfer: its id, track and files.
pub open spec fn is_begin_of(p: ImportPacket, t: Transfer) -> bool {
    p matches ImportPacket::Begin { version, id, track, assets } && version == PROTOCOL_VERSION
        && id == t.id && same_track(track, t.track) && assets@ == t.assets@
}

/// The error of a reply that a file is ready to receive, if any.
pub open spec fn ready_error(t: Transfer, addr: Seq<char>, r: ImportReply) -> Option<Seq<char>> {
    match peer_error(t, addr, Awaiting::Ready, opt_string_view(r.id)) {
        Some(e) => Some(e),
        None => if !(opt_string_view(r.asset) == Some(t.assets@[t.asset_index as int].kind@)
            && r.next_seq == Some(0u64) && r.next_offset == Some(0u64) && r.window == Some(1u64)) {
            Some("快应用返回了无效资源起点"@)
        } else if r.max_chunk_bytes is None {
            Some("快应用未返回分片上限"@)
        } else {
            None
        },
    }
}

/// The transfer after an accepted ready: the chunk size never grows.
pub open spec fn after_ready(t: Transfer, r: ImportReply) -> Transfer {
    let allowed = clamp_chunk(r.max_chunk_bytes.unwrap());
    Transfer {
        chunk_bytes: if t.chunk_bytes < allowed {
            t.chunk_bytes
        } else {
            allowed
        },
        ..t
    }
}

/// The word for a kind of file on the screen.
pub open spec fn kind_label(kind: Seq<char>) -> Seq<char> {
    if kind == "audio"@ {
        "音频"@
    } else if kind == "cover"@ {
        "封面"@
    } else if kind == "lyrics"@ {
        "歌词"@
    } else {
        "资源"@
    }
}

/// The status while a file of this kind is sent.
pub open spec fn sending_status(kind: Seq<char>) -> Seq<char> {
    "正在传输"@ + kind_label(kind) + "…"@
}

/// The error of an acknowledgement, if any: it must confirm exactly what was sent.
pub open spec fn ack_error(t: Transfer, addr: Seq<char>, r: ImportReply) -> Option<Seq<char>> {
    match peer_error(t, addr, Awaiting::Ack, opt_string_view(r.id)) {
        Some(e) => Some(e),
        None => if !(opt_string_view(r.asset) == Some(t.assets@[t.asset_index as int].kind@)
            && r.next_seq == Some(t.seq) && r.next_offset == Some(t.offset) && r.received_bytes
            == Some(t.sent_total)) {
            Some("累计 ACK 与已发送位置不一致"@)
        } else {
            None
        },
    }
}

/// The transfer after the end of its current file.
pub open spec fn after_asset_end(t: Transfer) -> Transfer {
    let next = (t.asset_index + 1) as usize;
    Transfer {
        asset_index: next,
        seq: 0,
        offset: 0,
        awaiting: if next == t.assets@.len() {
            Awaiting::AssetsDone
        } else {
            Awaiting::Ready
        },
        ..t
    }
}

/// A step that reads the next chunk of the transfer's current file.
pub open spec fn reads_next_chunk(a: ImportAction, t: Transfer) -> bool {
    a matches ImportAction::ReadChunk { asset_index, offset, len } && asset_index == t.asset_index
        && offset == t.offset && len == t.chunk_len()
}

/// A step that failed with `e`: the transfer is dropped and the screen says why.
pub open spec fn failed_with(
    a: ImportAction,
    after: Option<Transfer>,
    ui_after: UiState,
    ui_before: UiState,
    e: Seq<char>,
) -> bool {
    &&& a matches ImportAction::Failed(m) && m@ == e
    &&& after is None
    &&& ui_after.status@ == "导入失败："@ + e
    &&& ui_after == (UiState { active: false, status: ui_after.status, ..ui_before })
}

/// Whether a message is for the running import: from the import app, with a
/// tag of the import protocol, from the import's peer and for its id.
pub open spec fn for_import(current: Option<Transfer>, addr: Seq<char>, package: Seq<char>, r: ImportReply) -> bool {
    &&& package == ROUTE_PACKAGE@
    &&& r.tag matches Some(tag) && tag@.len() >= "lyra-import-"@.len() && tag@.take(
        "lyra-import-"@.len() as int,
    ) == "lyra-import-"@ && peer_matches(current, addr, tag@, opt_string_view(r.id))
}

/// The message of an error reported by the watch: `code: message`.
pub open spec fn peer_failure(r: ImportReply) -> Seq<char> {
    let code = match r.code {
        Some(c) => c@,
        None => "error"@,
    };
    let message = match r.message {
        Some(m) => m@,
        None => "quick app rejected import"@,
    };
    code + ": "@ + message
}

/// A copy of a list of files.
fn copy_assets(assets: &Vec<ImportAsset>) -> (r: Vec<ImportAsset>)
    ensures
        r@ == assets@,
{
    let mut out: Vec<ImportAsset> = Vec::new();
    let mut i: usize = 0;
    while i < assets.len()
        invariant
            i <= assets@.len(),
            out@ == assets@.take(i as int),
        decreases assets@.len() - i,
    {
        out.push(assets[i].duplicate());
        i = i + 1;
        assert(out@ =~= assets@.take(i as int));
    }
    assert(assets@.take(assets@.len() as int) =~= assets@);
    out
}

/// Whether an optional text equals a string.
fn opt_is(v: &Option<String>, s: &str) -> (r: bool)
    ensures
        r == (opt_string_view(*v) == Some(s@)),
{
    match v {
        Some(x) => str_eq(x.as_str(), s),
        None => false,
    }
}

/// Whether an optional number equals `n`.
fn opt_u64_is(v: Option<u64>, n: u64) -> (r: bool)
    ensures
        r == (v == Some(n)),
{
    match v {
        Some(x) => x == n,
        None => false,
    }
}

/// Whether the list holds "base64".
fn offers_base64(encodings: &Vec<String>) -> (r: bool)
    ensures
        r == has_base64(encodings@),
{
    let mut i: usize = 0;
    while i < encodings.len()
        invariant
            i <= encodings@.len(),
            forall|j: int| 0 <= j < i ==> encodings@[j]@ != "base64"@,
        decreases encodings@.len() - i,
    {
        if str_eq(encodings[i].as_str(), "base64") {
            return true;
        }
        i = i + 1;
    }
    false
}

/// The status while a file of this kind is sent.
fn sending_status_text(kind: &str) -> (r: String)
    ensures
        r@ == sending_status(kind@),
{
    let mut s = String::from_str("正在传输");
    if str_eq(kind, "audio") {
        s.append("音频");
    } else if str_eq(kind, "cover") {
        s.append("封面");
    } else if str_eq(kind, "lyrics") {
        s.append("歌词");
    } else {
        s.append("资源");
    }
    s.append("…");
    s
}

/// Handles the watch's hello: checks the protocol, then sends the import's description.
fn on_hello(t: &mut Transfer, addr: &str, r: &ImportReply) -> (p: Result<ImportPacket, String>)
    requires
        old(t).wf(),
    ensures
        match hello_error(*old(t), addr@, *r) {
            Some(e) => (p matches Err(m) && m@ == e) && *final(t) == *old(t),
            None => (p matches Ok(b) && is_begin_of(b, *old(t))) && *final(t) == after_hello(
                *old(t),
                *r,
            ) && final(t).wf(),
        },
{
    if !(opt_u64_is(r.version, PROTOCOL_VERSION) && opt_u64_is(r.window, 1)) {
        return Err(String::from_str("快应用不支持 Lyra Import v2 单窗口协议"));
    }
    if !offers_base64(&r.encodings) {
        return Err(String::from_str("快应用不支持 base64 分片"));
    }
    let max = match r.max_chunk_bytes {
        Some(m) => m,
        None => DEFAULT_CHUNK_BYTES as u64,
    };
    match validate_peer(t, addr, Awaiting::Hello, &None) {
        Err(e) => {
            return Err(e);
        },
        Ok(()) => {},
    }
    t.chunk_bytes = clamp_chunk_bytes(max);
    t.awaiting = Awaiting::Ready;
    Ok(
        ImportPacket::Begin {
            version: PROTOCOL_VERSION,
            id: t.id.clone(),
            track: t.track.duplicate(),
            assets: copy_assets(&t.assets),
        },
    )
}

/// Handles the watch's readiness for the current file: checks where it starts
/// and how large its chunks may be.
fn on_ready(t: &mut Transfer, addr: &str, r: &ImportReply) -> (p: Result<(), String>)
    requires
        old(t).wf(),
    ensures
        match ready_error(*old(t), addr@, *r) {
            Some(e) => (p matches Err(m) && m@ == e) && *final(t) == *old(t),
            None => p is Ok && *final(t) == after_ready(*old(t), *r) && final(t).wf(),
        },
{
    match validate_peer(t, addr, Awaiting::Ready, &r.id) {
        Err(e) => {
            return Err(e);
        },
        Ok(()) => {},
    }
    let kind = t.assets[t.asset_index].kind;
    if !(opt_is(&r.asset, kind) && opt_u64_is(r.next_seq, 0) && opt_u64_is(r.next_offset, 0)
        && opt_u64_is(r.window, 1)) {
        return Err(String::from_str("快应用返回了无效资源起点"));
    }
    let max = match r.max_chunk_bytes {
        Some(m) => m,
        None => {
            return Err(String::from_str("快应用未返回分片上限"));
        },
    };
    let allowed = clamp_chunk_bytes(max);
    if allowed < t.chunk_bytes {
        t.chunk_bytes = allowed;
    }
    Ok(())
}

/// Handles an acknowledgement: it must confirm exactly what was sent.
fn on_ack(t: &Transfer, addr: &str, r: &ImportReply) -> (p: Result<(), String>)
    requires
        t.wf(),
    ensures
        match ack_error(*t, addr@, *r) {
            Some(e) => (p matches Err(m) && m@ == e),
            None => p is Ok,
        },
{
    match validate_peer(t, addr, Awaiting::Ack, &r.id) {
        Err(e) => {
            return Err(e);
        },
        Ok(()) => {},
    }
    let kind = t.assets[t.asset_index].kind;
    if !(opt_is(&r.asset, kind) && opt_u64_is(r.next_seq, t.seq) && opt_u64_is(
        r.next_offset,
        t.offset,
    ) && opt_u64_is(r.received_bytes, t.sent_total)) {
        return Err(String::from_str("累计 ACK 与已发送位置不一致"));
    }
    Ok(())
}

/// The plan to read the next chunk of the current file.
fn next_chunk(t: &Transfer) -> (a: ImportAction)
    requires
        t.wf(),
        t.asset_index < t.assets@.len(),
        t.offset < t.current_size(),
    ensures
        reads_next_chunk(a, *t),
{
    let left = t.assets[t.asset_index].size - t.offset;
    let len: usize = if (t.chunk_bytes as u64) < left {
        t.chunk_bytes
    } else {
        left as usize
    };
    ImportAction::ReadChunk { asset_index: t.asset_index, offset: t.offset, len }
}

/// Ends the current file: the next file, or the end of all files, follows.
fn end_asset(t: &mut Transfer) -> (p: ImportPacket)
    requires
        old(t).wf(),
        old(t).awaiting == Awaiting::Ack,
        old(t).offset == old(t).current_size(),
    ensures
        p matches ImportPacket::AssetEnd { id, asset } && id == old(t).id && asset == old(
            t,
        ).assets@[old(t).asset_index as int].kind,
        *final(t) == after_asset_end(*old(t)),
        final(t).wf(),
{
    let kind = t.assets[t.asset_index].kind;
    let p = ImportPacket::AssetEnd { id: t.id.clone(), asset: kind };
    t.asset_index = t.asset_index + 1;
    t.seq = 0;
    t.offset = 0;
    t.awaiting = if t.asset_index == t.assets.len() {
        Awaiting::AssetsDone
    } else {
        Awaiting::Ready
    };
    p
}

/// Records a chunk read from the current file and makes its message: the
/// bytes in base64 with their CRC-32 in eight lower-case hex digits.
pub fn record_chunk(t: &mut Transfer, bytes: &[u8]) -> (p: ImportPacket)
    requires
        old(t).wf(),
        old(t).awaiting == Awaiting::Ready || old(t).awaiting == Awaiting::Ack,
        old(t).offset < old(t).current_size(),
        bytes@.len() == old(t).chunk_len(),
    ensures
        final(t).wf(),
        *final(t) == (Transfer {
            seq: (old(t).seq + 1) as u64,
            offset: (old(t).offset + bytes@.len()) as u64,
            sent_total: (old(t).sent_total + bytes@.len()) as u64,
            awaiting: Awaiting::Ack,
            ..*old(t)
        }),
        p matches ImportPacket::Chunk { id, asset, seq, offset, encoding, data, crc32: sum }
            && id == old(t).id && asset == old(t).assets@[old(t).asset_index as int].kind && seq
            == old(t).seq && offset == old(t).offset && encoding@ == "base64"@ && data@
            == base64_standard_encoded(bytes@) && sum@ == hex8_lower(crc32(bytes@)),
{
    proof {
        lemma_sizes_before_monotone(t.assets@, t.asset_index as int + 1, t.assets@.len() as int);
    }
    let count = bytes.len() as u64;
    let mut sum = String::new();
    push_hex8_lower(&mut sum, crc32_fast(bytes));
    let p = ImportPacket::Chunk {
        id: t.id.clone(),
        asset: t.assets[t.asset_index].kind,
        seq: t.seq,
        offset: t.offset,
        encoding: "base64",
        data: base64_encode(bytes),
        crc32: sum,
    };
    t.seq = t.seq + 1;
    t.offset = t.offset + count;
    t.sent_total = t.sent_total + count;
    t.awaiting = Awaiting::Ack;
    p
}


/// What a message for the running transfer `t` does: the next transfer, the
/// screen and the step the caller takes.
pub open spec fn handled(
    t: Transfer,
    ui: UiState,
    addr: Seq<char>,
    r: ImportReply,
    a: ImportAction,
    after: Option<Transfer>,
    ui_after: UiState,
) -> bool {
    let tag = match r.tag {
        Some(x) => x@,
        None => Seq::empty(),
    };
    let kind = t.assets@[t.asset_index as int].kind;
    if tag == "lyra-import-hello"@ {
        match hello_error(t, addr, r) {
            Some(e) => failed_with(a, after, ui_after, ui, e),
            None => {
                &&& after == Some(after_hello(t, r))
                &&& a matches ImportAction::Send(p) && is_begin_of(p, t)
                &&& ui_after.status@ == "快应用已连接，正在准备存储…"@
                &&& ui_after == with_status(ui, ui_after.status)
            },
        }
    } else if tag == "lyra-import-ready"@ {
        match ready_error(t, addr, r) {
            Some(e) => failed_with(a, after, ui_after, ui, e),
            None => {
                &&& after == Some(after_ready(t, r))
                &&& reads_next_chunk(a, after_ready(t, r))
                &&& ui_after.status@ == sending_status(kind@)
                &&& ui_after == with_status(ui, ui_after.status)
            },
        }
    } else if tag == "lyra-import-ack"@ {
        match ack_error(t, addr, r) {
            Some(e) => failed_with(a, after, ui_after, ui, e),
            None => {
                &&& ui_after == (UiState { sent: t.sent_total, ..ui })
                &&& if t.offset == t.current_size() {
                    &&& after == Some(after_asset_end(t))
                    &&& a matches ImportAction::Send(ImportPacket::AssetEnd { id, asset })
                    &&& id == t.id
                    &&& asset == kind
                } else {
                    after == Some(t) && reads_next_chunk(a, t)
                }
            },
        }
    } else if tag == "lyra-import-assets-done"@ {
        match peer_error(t, addr, Awaiting::AssetsDone, opt_string_view(r.id)) {
            Some(e) => failed_with(a, after, ui_after, ui, e),
            None => {
                &&& after == Some(Transfer { awaiting: Awaiting::Done, ..t })
                &&& a matches ImportAction::Send(ImportPacket::Commit { id }) && id == t.id
                &&& ui_after.status@ == "正在发布曲目与音乐库…"@
                &&& ui_after == with_status(ui, ui_after.status)
            },
        }
    } else if tag == "lyra-import-done"@ {
        match peer_error(t, addr, Awaiting::Done, opt_string_view(r.id)) {
            Some(e) => failed_with(a, after, ui_after, ui, e),
            None => {
                &&& a is Completed
                &&& after is None
                &&& ui_after.status@ == "导入完成；Lyra Player 将自动刷新音乐库。"@
                &&& ui_after == (UiState {
                    active: false,
                    sent: ui.total,
                    status: ui_after.status,
                    ..ui
                })
            },
        }
    } else if tag == "lyra-import-cancelled"@ {
        failed_with(a, after, ui_after, ui, "快应用已取消导入"@)
    } else if tag == "lyra-import-error"@ {
        failed_with(a, after, ui_after, ui, peer_failure(r))
    } else {
        a is Ignore && after == Some(t) && ui_after == ui
    }
}

/// Ends the transfer with `error` and reports the failure.
fn fail_with(current: &mut Option<Transfer>, ui: &mut UiState, error: String) -> (a: ImportAction)
    ensures
        failed_with(a, *final(current), *final(ui), *old(ui), error@),
{
    fail(current, ui, error.as_str());
    ImportAction::Failed(error)
}

/// Handles a message from the watch for the running import (the import
/// protocol's state machine): a message from elsewhere, or for no running
/// import, is ignored; one that breaks the protocol ends the import.
pub fn handle(
    current: &mut Option<Transfer>,
    ui: &mut UiState,
    addr: &str,
    package: &str,
    r: &ImportReply,
) -> (a: ImportAction)
    requires
        *old(current) matches Some(t) ==> t.wf(),
    ensures
        *final(current) matches Some(t) ==> t.wf(),
        !for_import(*old(current), addr@, package@, *r) ==> a is Ignore && *final(current)
            == *old(current) && *final(ui) == *old(ui),
        for_import(*old(current), addr@, package@, *r) ==> (*old(current) matches Some(t)
            && handled(t, *old(ui), addr@, *r, a, *final(current), *final(ui))),
{
    if !str_eq(package, ROUTE_PACKAGE) {
        return ImportAction::Ignore;
    }
    let tag = match &r.tag {
        Some(tag) => tag.as_str(),
        None => {
            return ImportAction::Ignore;
        },
    };
    if !starts_with(tag, "lyra-import-") || !matches_active_peer(current, addr, tag, &r.id) {
        return ImportAction::Ignore;
    }
    let mut t = match current.take() {
        Some(t) => t,
        None => {
            return ImportAction::Ignore;
        },
    };
    let ghost t0 = t;
    if str_eq(tag, "lyra-import-hello") {
        match on_hello(&mut t, addr, r) {
            Err(e) => fail_with(current, ui, e),
            Ok(p) => {
                *current = Some(t);
                ui.status = String::from_str("快应用已连接，正在准备存储…");
                ImportAction::Send(p)
            },
        }
    } else if str_eq(tag, "lyra-import-ready") {
        match on_ready(&mut t, addr, r) {
            Err(e) => fail_with(current, ui, e),
            Ok(()) => {
                ui.status = sending_status_text(t.assets[t.asset_index].kind);
                let a = next_chunk(&t);
                *current = Some(t);
                a
            },
        }
    } else if str_eq(tag, "lyra-import-ack") {
        match on_ack(&t, addr, r) {
            Err(e) => fail_with(current, ui, e),
            Ok(()) => {
                ui.sent = t.sent_total;
                if t.offset == t.assets[t.asset_index].size {
                    let p = end_asset(&mut t);
                    *current = Some(t);
                    ImportAction::Send(p)
                } else {
                    let a = next_chunk(&t);
                    *current = Some(t);
                    a
                }
            },
        }
    } else if str_eq(tag, "lyra-import-assets-done") {
        match validate_peer(&t, addr, Awaiting::AssetsDone, &r.id) {
            Err(e) => fail_with(current, ui, e),
            Ok(()) => {
                t.awaiting = Awaiting::Done;
                let p = ImportPacket::Commit { id: t.id.clone() };
                *current = Some(t);
                ui.status = String::from_str("正在发布曲目与音乐库…");
                ImportAction::Send(p)
            },
        }
    } else if str_eq(tag, "lyra-import-done") {
        match validate_peer(&t, addr, Awaiting::Done, &r.id) {
            Err(e) => fail_with(current, ui, e),
            Ok(()) => {
                ui.active = false;
                ui.sent = ui.total;
                ui.status = String::from_str("导入完成；Lyra Player 将自动刷新音乐库。");
                ImportAction::Completed
            },
        }
    } else if str_eq(tag, "lyra-import-cancelled") {
        fail_with(current, ui, String::from_str("快应用已取消导入"))
    } else if str_eq(tag, "lyra-import-error") {
        let mut e = match &r.code {
            Some(c) => c.clone(),
            None => String::from_str("error"),
        };
        e.append(": ");
        match &r.message {
            Some(m) => e.append(m.as_str()),
            None => e.append("quick app rejected import"),
        }
        fail_with(current, ui, e)
    } else {
        *current = Some(t);
        ImportAction::Ignore
    }
}


/// A transfer never counts more bytes than its files hold, and once every file
/// has ended it has sent each byte of each file exactly once.
pub proof fn lemma_sent_bytes_account(t: Transfer)
    requires
        t.wf(),
    ensures
        t.sent_total <= total_size(t.assets@),
        t.asset_index == t.assets@.len() ==> t.sent_total == total_size(t.assets@),
        t.awaiting == Awaiting::AssetsDone || t.awaiting == Awaiting::Done ==> t.sent_total
            == total_size(t.assets@),
{
    if t.asset_index < t.assets@.len() {
        lemma_sizes_before_monotone(t.assets@, t.asset_index as int + 1, t.assets@.len() as int);
    }
}


/// With no running import every message is ignored: once an import has ended,
/// by completion, error or cancel, nothing more is sent for it.
pub proof fn lemma_no_import_ignores_everything(addr: Seq<char>, package: Seq<char>, r: ImportReply)
    ensures
        !for_import(None, addr, package, r),
{
}

/// The window is one chunk: a step reads the next chunk only when nothing sent
/// is unacknowledged, at the start of a file after the watch said it is ready,
/// or after an acknowledgement of every byte sent so far. Each chunk is at most
/// `MAX_CHUNK_BYTES` long and lies within the current file.
pub proof fn lemma_one_chunk_in_flight(
    t: Transfer,
    ui: UiState,
    addr: Seq<char>,
    r: ImportReply,
    a: ImportAction,
    after: Option<Transfer>,
    ui_after: UiState,
)
    requires
        t.wf(),
        handled(t, ui, addr, r, a, after, ui_after),
        a is ReadChunk,
    ensures
        (t.awaiting == Awaiting::Ready && t.offset == 0) || (t.awaiting == Awaiting::Ack
            && r.received_bytes == Some(t.sent_total) && r.next_offset == Some(t.offset)),
        after matches Some(n) && a->len <= MAX_CHUNK_BYTES && a->offset + a->len <= n.current_size()
            && a->asset_index == n.asset_index,
{
}

/// Files are sent one after another in the order of the description: the end
/// of a file moves to the next one, from its start.
pub proof fn lemma_files_in_order(t: Transfer)
    requires
        t.wf(),
        t.awaiting == Awaiting::Ack,
        t.offset == t.current_size(),
    ensures
        after_asset_end(t).wf(),
        after_asset_end(t).asset_index == t.asset_index + 1,
        after_asset_end(t).offset == 0 && after_asset_end(t).seq == 0,
        after_asset_end(t).sent_total == t.sent_total,
{
}

} // verus!
