//! Reading and reordering the music library on the watch: the list comes in
//! pages of eight tracks, each answering the latest request, all of one revision.
use vstd::prelude::*;

use crate::plugin::import::ROUTE_PACKAGE;
use crate::plugin::state::{DeviceLibraryTrack, UiState};
use crate::text::{decimal, push_decimal, starts_with, str_eq};

verus! {

/// The number of tracks asked for in one page.
pub const PAGE_SIZE: usize = 8;

/// A request for one page of the watch's library.
#[derive(Debug)]
pub struct LibraryList {
    pub addr: String,
    pub request_id: String,
    pub offset: usize,
    pub limit: usize,
}

/// A request to move one track of the watch's library up or down.
#[derive(Debug)]
pub struct LibraryMove {
    pub addr: String,
    pub request_id: String,
    pub revision: String,
    pub track_id: u64,
    pub direction: String,
}

/// One page of the watch's library.
#[derive(Debug)]
pub struct LibraryPage {
    pub request_id: String,
    pub revision: String,
    pub offset: usize,
    pub total: usize,
    pub tracks: Vec<DeviceLibraryTrack>,
}

/// A message from the watch about its library: the members that are read, each
/// `None` where the message lacks it; `page` is the message read as a page, or
/// why it is not one.
#[derive(Debug)]
pub struct LibraryMessage {
    pub tag: Option<String>,
    pub request_id: Option<String>,
    pub code: Option<String>,
    pub page: Result<LibraryPage, String>,
}

/// What the caller does after a library message.
#[derive(Debug)]
pub struct LibraryStep {
    /// Whether the message belonged to the library protocol.
    pub handled: bool,
    /// The page request to send next, if any.
    pub send: Option<LibraryList>,
}

/// `ui` with its status replaced.
pub open spec fn with_status(ui: UiState, status: String) -> UiState {
    UiState { status, ..ui }
}

/// The nonce after `n`: one more, wrapping at the top.
pub open spec fn next_nonce(n: u64) -> u64 {
    if n == u64::MAX {
        0
    } else {
        (n + 1) as u64
    }
}

/// The request id made from a nonce.
pub open spec fn request_id_of(n: u64) -> Seq<char> {
    "library-"@ + decimal(n as nat)
}

/// Takes the next nonce and returns its request id.
pub fn next_request_id(ui: &mut UiState) -> (r: String)
    ensures
        final(ui).library_nonce == next_nonce(old(ui).library_nonce),
        *final(ui) == (UiState { library_nonce: final(ui).library_nonce, ..*old(ui) }),
        r@ == request_id_of(final(ui).library_nonce),
{
    ui.library_nonce = if ui.library_nonce == u64::MAX {
        0
    } else {
        ui.library_nonce + 1
    };
    let mut r = String::from_str("library-");
    push_decimal(&mut r, ui.library_nonce);
    r
}

/// What `refresh` does: nothing is sent without a device or while an import
/// runs, and the screen says why; otherwise a new request for the first page
/// replaces the list read so far.
pub open spec fn refreshed(ui: UiState, ui_after: UiState, r: Option<LibraryList>) -> bool {
    if ui.selected_addr@.len() == 0 {
        r is None && ui_after.status@ == "请先选择设备。"@ && ui_after == with_status(ui, ui_after.status)
    } else if ui.active {
        r is None && ui_after.status@ == "请等待当前导入完成后再读取手表音乐。"@ && ui_after == with_status(
            ui,
            ui_after.status,
        )
    } else {
        let n = next_nonce(ui.library_nonce);
        &&& r matches Some(l) && l.addr == ui.selected_addr && l.request_id@ == request_id_of(n)
            && l.offset == 0 && l.limit == PAGE_SIZE
        &&& ui_after.library_request_id@ == request_id_of(n)
        &&& ui_after.device_library@.len() == 0
        &&& ui_after.library_revision@.len() == 0
        &&& ui_after.status@ == "正在读取手表音乐列表…"@
        &&& ui_after == (UiState {
            library_nonce: n,
            library_request_id: ui_after.library_request_id,
            device_library: ui_after.device_library,
            library_revision: ui_after.library_revision,
            library_total: 0,
            status: ui_after.status,
            ..ui
        })
    }
}

/// Starts reading the watch's library from its first page.
pub fn refresh(ui: &mut UiState) -> (r: Option<LibraryList>)
    ensures
        refreshed(*old(ui), *final(ui), r),
{
    if ui.selected_addr.unicode_len() == 0 {
        ui.status = String::from_str("请先选择设备。");
        return None;
    }
    if ui.active {
        ui.status = String::from_str("请等待当前导入完成后再读取手表音乐。");
        return None;
    }
    let request_id = next_request_id(ui);
    ui.library_request_id = request_id.clone();
    ui.device_library.clear();
    ui.library_revision = String::new();
    ui.library_total = 0;
    ui.status = String::from_str("正在读取手表音乐列表…");
    Some(
        LibraryList {
            addr: ui.selected_addr.clone(),
            request_id,
            offset: 0,
            limit: PAGE_SIZE,
        },
    )
}

/// Asks the watch to move a track one place up or down in its library. Nothing
/// is sent without a device, while an import runs, before the list was read,
/// or for another direction; the screen says why.
pub fn move_track(ui: &mut UiState, track_id: u64, direction: &str) -> (r: Option<LibraryMove>)
    ensures
        ({
            let refused = if old(ui).selected_addr@.len() == 0 {
                Some("请先选择设备。"@)
            } else if old(ui).active {
                Some("请等待当前导入完成后再调整排序。"@)
            } else if old(ui).library_revision@.len() == 0 {
                Some("请先刷新手表音乐列表。"@)
            } else if direction@ != "up"@ && direction@ != "down"@ {
                Some("无效的排序方向。"@)
            } else {
                None
            };
            match refused {
                Some(m) => r is None && final(ui).status@ == m && *final(ui) == with_status(
                    *old(ui),
                    final(ui).status,
                ),
                None => {
                    let n = next_nonce(old(ui).library_nonce);
                    &&& r matches Some(m) && m.addr == old(ui).selected_addr && m.request_id@
                        == request_id_of(n) && m.revision == old(ui).library_revision
                        && m.track_id == track_id && m.direction@ == direction@
                    &&& final(ui).library_request_id@ == request_id_of(n)
                    &&& final(ui).status@ == "正在调整手表音乐顺序…"@
                    &&& *final(ui) == (UiState {
                        library_nonce: n,
                        library_request_id: final(ui).library_request_id,
                        status: final(ui).status,
                        ..*old(ui)
                    })
                },
            }
        }),
{
    if ui.selected_addr.unicode_len() == 0 {
        ui.status = String::from_str("请先选择设备。");
        return None;
    }
    if ui.active {
        ui.status = String::from_str("请等待当前导入完成后再调整排序。");
        return None;
    }
    if ui.library_revision.unicode_len() == 0 {
        ui.status = String::from_str("请先刷新手表音乐列表。");
        return None;
    }
    if !str_eq(direction, "up") && !str_eq(direction, "down") {
        ui.status = String::from_str("无效的排序方向。");
        return None;
    }
    let request_id = next_request_id(ui);
    ui.library_request_id = request_id.clone();
    ui.status = String::from_str("正在调整手表音乐顺序…");
    Some(
        LibraryMove {
            addr: ui.selected_addr.clone(),
            request_id,
            revision: ui.library_revision.clone(),
            track_id,
            direction: String::from_str(direction),
        },
    )
}

/// Reports that a library request could not be sent: `prefix` then the error.
pub fn send_failed(ui: &mut UiState, prefix: &str, error: &str)
    ensures
        final(ui).status@ == prefix@ + error@,
        *final(ui) == with_status(*old(ui), final(ui).status),
{
    let mut s = String::from_str(prefix);
    s.append(error);
    ui.status = s;
}

/// The status after a page that was taken in: how many tracks were read of how many.
pub open spec fn progress_status(read: nat, total: nat) -> Seq<char> {
    "已读取 "@ + decimal(read) + "/"@ + decimal(total) + " 首手表音乐。"@
}

/// What a page does to the screen and which page is asked for next.
pub open spec fn page_outcome(ui: UiState, addr: Seq<char>, page: LibraryPage, ui_after: UiState, next: Option<LibraryList>) -> bool {
    let have = ui.device_library@.len();
    let joined = ui.device_library@ + page.tracks@;
    if ui.selected_addr@ != addr || ui.library_request_id@ != page.request_id@ {
        next is None && ui_after == ui
    } else if page.offset != have || page.total < page.offset {
        next is None && ui_after.status@ == "手表音乐分页顺序无效，请重新刷新。"@ && ui_after
            == with_status(ui, ui_after.status)
    } else if ui.library_revision@.len() > 0 && ui.library_revision@ != page.revision@ {
        next is None && ui_after.status@ == "读取期间手表音乐列表已变化，请重新刷新。"@ && ui_after
            == with_status(ui, ui_after.status)
    } else {
        let taken = UiState {
            library_revision: page.revision,
            library_total: page.total,
            device_library: ui_after.device_library,
            status: ui_after.status,
            ..ui
        };
        &&& ui_after == taken
        &&& if joined.len() > page.total {
            &&& ui_after.device_library@ == joined.take(page.total as int)
            &&& ui_after.status@ == "手表音乐分页数量无效，请重新刷新。"@
            &&& next is None
        } else if page.tracks@.len() == 0 && joined.len() < page.total {
            &&& ui_after.device_library@ == joined
            &&& ui_after.status@ == "手表音乐分页提前结束，请重新刷新。"@
            &&& next is None
        } else {
            &&& ui_after.device_library@ == joined
            &&& ui_after.status@ == progress_status(joined.len(), page.total as nat)
            &&& if joined.len() < page.total {
                next matches Some(l) && l.addr@ == addr && l.request_id == ui.library_request_id
                    && l.offset == joined.len() && l.limit == PAGE_SIZE
            } else {
                next is None
            }
        }
    }
}

/// Takes in a page of the watch's library. A page for another device or an
/// older request is ignored; one out of order, of another revision, too long
/// or ending early stops the reading and asks for a refresh.
pub fn handle_page(ui: &mut UiState, addr: &str, page: LibraryPage) -> (next: Option<LibraryList>)
    ensures
        page_outcome(*old(ui), addr@, page, *final(ui), next),
{
    if !str_eq(ui.selected_addr.as_str(), addr) || !str_eq(
        ui.library_request_id.as_str(),
        page.request_id.as_str(),
    ) {
        return None;
    }
    if page.offset != ui.device_library.len() || page.total < page.offset {
        ui.status = String::from_str("手表音乐分页顺序无效，请重新刷新。");
        return None;
    }
    if ui.library_revision.unicode_len() > 0 && !str_eq(
        ui.library_revision.as_str(),
        page.revision.as_str(),
    ) {
        ui.status = String::from_str("读取期间手表音乐列表已变化，请重新刷新。");
        return None;
    }
    let ghost joined = ui.device_library@ + page.tracks@;
    let LibraryPage { request_id: _, revision, offset: _, total, tracks } = page;
    let mut tracks = tracks;
    let received = tracks.len();
    let room = total - ui.device_library.len();
    let too_many = received > room;
    if too_many {
        tracks.truncate(room);
    }
    ui.library_revision = revision;
    ui.library_total = total;
    ui.device_library.append(&mut tracks);
    if too_many {
        assert(ui.device_library@ =~= joined.take(total as int));
        ui.status = String::from_str("手表音乐分页数量无效，请重新刷新。");
        return None;
    }
    assert(ui.device_library@ == joined);
    if received == 0 && ui.device_library.len() < total {
        ui.status = String::from_str("手表音乐分页提前结束，请重新刷新。");
        return None;
    }
    let count = ui.device_library.len();
    let mut s = String::from_str("已读取 ");
    push_decimal(&mut s, count as u64);
    s.append("/");
    push_decimal(&mut s, total as u64);
    s.append(" 首手表音乐。");
    ui.status = s;
    if count < total {
        Some(
            LibraryList {
                addr: String::from_str(addr),
                request_id: ui.library_request_id.clone(),
                offset: count,
                limit: PAGE_SIZE,
            },
        )
    } else {
        None
    }
}

/// The status for an error code of the watch's library.
pub open spec fn library_error_status(code: Seq<char>) -> Seq<char> {
    if code == "invalid-request"@ {
        "当前快应用不支持音乐库排序，请更新快应用。"@
    } else if code == "busy"@ {
        "快应用正在导入音乐，请稍后重试。"@
    } else if code == "conflict"@ {
        "手表音乐列表已变化，请刷新后再排序。"@
    } else if code == "boundary"@ {
        "这首歌曲已经位于列表边界。"@
    } else if code == "invalid-library"@ {
        "手表音乐库文件无效，未执行排序。"@
    } else if code == "io-error"@ {
        "快应用读写手表音乐库失败，旧列表未被替换。"@
    } else if code == "response-too-large"@ {
        "单首音乐元数据过长，无法通过设备消息读取。"@
    } else {
        "手表音乐操作失败："@ + code
    }
}

/// The text of an optional member, or `fallback` where it is missing.
pub open spec fn text_or(v: Option<String>, fallback: Seq<char>) -> Seq<char> {
    match v {
        Some(s) => s@,
        None => fallback,
    }
}

/// What an error of the watch's library does: shown when it answers the
/// latest request of the selected device, ignored otherwise.
pub open spec fn error_outcome(ui: UiState, addr: Seq<char>, request_id: Option<String>, code: Option<String>, ui_after: UiState) -> bool {
    let id = text_or(request_id, Seq::empty());
    if ui.selected_addr@ != addr || ui.library_request_id@ != id {
        ui_after == ui
    } else {
        ui_after.status@ == library_error_status(text_or(code, "unknown"@)) && ui_after
            == with_status(ui, ui_after.status)
    }
}

/// What a moved track does: when it answers the latest request of the
/// selected device, the list is read again as `refresh` does.
pub open spec fn moved_outcome(ui: UiState, addr: Seq<char>, request_id: Option<String>, ui_after: UiState, r: Option<LibraryList>) -> bool {
    let id = text_or(request_id, Seq::empty());
    if ui.selected_addr@ != addr || ui.library_request_id@ != id {
        r is None && ui_after == ui
    } else {
        refreshed(ui, ui_after, r)
    }
}

/// Shows an error of the watch's library, if it answers the latest request.
pub fn handle_error(ui: &mut UiState, addr: &str, request_id: &Option<String>, code: &Option<String>)
    ensures
        error_outcome(*old(ui), addr@, *request_id, *code, *final(ui)),
{
    let none = String::new();
    let id = match request_id {
        Some(s) => s.as_str(),
        None => none.as_str(),
    };
    if !str_eq(ui.selected_addr.as_str(), addr) || !str_eq(ui.library_request_id.as_str(), id) {
        return;
    }
    let code = match code {
        Some(s) => s.as_str(),
        None => "unknown",
    };
    let status = if str_eq(code, "invalid-request") {
        String::from_str("当前快应用不支持音乐库排序，请更新快应用。")
    } else if str_eq(code, "busy") {
        String::from_str("快应用正在导入音乐，请稍后重试。")
    } else if str_eq(code, "conflict") {
        String::from_str("手表音乐列表已变化，请刷新后再排序。")
    } else if str_eq(code, "boundary") {
        String::from_str("这首歌曲已经位于列表边界。")
    } else if str_eq(code, "invalid-library") {
        String::from_str("手表音乐库文件无效，未执行排序。")
    } else if str_eq(code, "io-error") {
        String::from_str("快应用读写手表音乐库失败，旧列表未被替换。")
    } else if str_eq(code, "response-too-large") {
        String::from_str("单首音乐元数据过长，无法通过设备消息读取。")
    } else {
        let mut s = String::from_str("手表音乐操作失败：");
        s.append(code);
        s
    };
    ui.status = status;
}

/// After the watch moved a track for the latest request, the list is read again.
pub fn handle_moved(ui: &mut UiState, addr: &str, request_id: &Option<String>) -> (r: Option<LibraryList>)
    ensures
        moved_outcome(*old(ui), addr@, *request_id, *final(ui), r),
{
    let none = String::new();
    let id = match request_id {
        Some(s) => s.as_str(),
        None => none.as_str(),
    };
    if !str_eq(ui.selected_addr.as_str(), addr) || !str_eq(ui.library_request_id.as_str(), id) {
        return None;
    }
    refresh(ui)
}

/// Handles a message that may belong to the library protocol: from the
/// import app, with a `lyra-library-` tag.
pub fn handle(ui: &mut UiState, addr: &str, package: &str, msg: LibraryMessage) -> (step: LibraryStep)
    ensures
        ({
            let tag = text_or(msg.tag, Seq::empty());
            let ours = package@ == ROUTE_PACKAGE@ && msg.tag is Some && tag.len() >= "lyra-library-"@.len()
                && tag.take("lyra-library-"@.len() as int) == "lyra-library-"@;
            &&& step.handled == ours
            &&& !ours ==> step.send is None && *final(ui) == *old(ui)
            &&& ours && tag == "lyra-library-page"@ ==> match msg.page {
                Ok(p) => page_outcome(*old(ui), addr@, p, *final(ui), step.send),
                Err(e) => step.send is None && final(ui).status@ == "手表音乐响应无效："@ + e@
                    && *final(ui) == with_status(*old(ui), final(ui).status),
            }
            &&& ours && tag == "lyra-library-error"@ ==> step.send is None && error_outcome(
                *old(ui),
                addr@,
                msg.request_id,
                msg.code,
                *final(ui),
            )
            &&& ours && tag == "lyra-library-moved"@ ==> moved_outcome(
                *old(ui),
                addr@,
                msg.request_id,
                *final(ui),
                step.send,
            )
            &&& ours && tag != "lyra-library-page"@ && tag != "lyra-library-error"@ && tag
                != "lyra-library-moved"@ ==> step.send is None && *final(ui) == *old(ui)
        }),
{
    if !str_eq(package, ROUTE_PACKAGE) {
        return LibraryStep { handled: false, send: None };
    }
    let tag = match &msg.tag {
        Some(t) => t.as_str(),
        None => {
            return LibraryStep { handled: false, send: None };
        },
    };
    if !starts_with(tag, "lyra-library-") {
        return LibraryStep { handled: false, send: None };
    }
    assert("lyra-library-error"@ != "lyra-library-page"@ && "lyra-library-moved"@
        != "lyra-library-page"@ && "lyra-library-moved"@ != "lyra-library-error"@) by {
        reveal_strlit("lyra-library-error");
        reveal_strlit("lyra-library-page");
        reveal_strlit("lyra-library-moved");
        assert("lyra-library-error"@[14] != "lyra-library-page"@[14]);
        assert("lyra-library-moved"@[14] != "lyra-library-page"@[14]);
        assert("lyra-library-moved"@[14] != "lyra-library-error"@[14]);
    }
    if str_eq(tag, "lyra-library-page") {
        let send = match msg.page {
            Ok(p) => handle_page(ui, addr, p),
            Err(e) => {
                send_failed(ui, "手表音乐响应无效：", e.as_str());
                None
            },
        };
        LibraryStep { handled: true, send }
    } else if str_eq(tag, "lyra-library-error") {
        handle_error(ui, addr, &msg.request_id, &msg.code);
        LibraryStep { handled: true, send: None }
    } else if str_eq(tag, "lyra-library-moved") {
        let send = handle_moved(ui, addr, &msg.request_id);
        LibraryStep { handled: true, send }
    } else {
        LibraryStep { handled: true, send: None }
    }
}


/// A page of another device or request changes nothing; a page that is taken
/// in keeps the tracks read before it and never leaves more tracks than the
/// total the watch announced; the next page asked for starts where the list ends.
pub proof fn lemma_page_keeps_list_within_total(
    ui: UiState,
    addr: Seq<char>,
    page: LibraryPage,
    ui_after: UiState,
    next: Option<LibraryList>,
)
    requires
        page_outcome(ui, addr, page, ui_after, next),
    ensures
        ui.selected_addr@ != addr || ui.library_request_id@ != page.request_id@ ==> ui_after == ui
            && next is None,
        ({
            let taken = ui.selected_addr@ == addr && ui.library_request_id@ == page.request_id@
                && page.offset == ui.device_library@.len() && page.offset <= page.total && (
            ui.library_revision@.len() == 0 || ui.library_revision@ == page.revision@);
            taken ==> ui_after.library_total == page.total && ui_after.device_library@.len()
                <= ui_after.library_total && ui_after.device_library@.take(
                ui.device_library@.len() as int,
            ) == ui.device_library@
        }),
        next matches Some(l) ==> l.offset == ui_after.device_library@.len() && l.offset
            < ui_after.library_total,
{
}

/// A refresh that asks for the first page starts the list afresh: the first
/// page of its answer, taken at offset 0 under any revision, becomes the whole
/// list read so far, and the next page is asked for while tracks are missing.
pub proof fn lemma_refresh_takes_first_page(
    ui: UiState,
    refreshed_ui: UiState,
    request: Option<LibraryList>,
    page: LibraryPage,
    after: UiState,
    next: Option<LibraryList>,
)
    requires
        refreshed(ui, refreshed_ui, request),
        request matches Some(l) && page.request_id@ == l.request_id@,
        page.offset == 0,
        page.tracks@.len() <= page.total,
        page.tracks@.len() > 0 || page.total == 0,
        page_outcome(refreshed_ui, ui.selected_addr@, page, after, next),
    ensures
        refreshed_ui.device_library@.len() == 0,
        after.device_library@ == page.tracks@,
        after.library_total == page.total,
        after.library_revision == page.revision,
        after.status@ == progress_status(page.tracks@.len(), page.total as nat),
        next is Some <==> page.tracks@.len() < page.total,
{
    let joined = refreshed_ui.device_library@ + page.tracks@;
    assert(joined =~= page.tracks@);
}

} // verus!
