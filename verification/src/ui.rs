//! The watch's screens as plain values: for each route, the rows that the
//! screen shows and the events they send back.
use vstd::prelude::*;

use crate::app::{LyraApp, Route};
use crate::model::{joined_names, Song};
use crate::playback::PlaybackState;
use crate::text::{decimal, decimal_pad2, push_decimal, push_decimal_pad2};

verus! {

pub const EVENT_BACK: u32 = 1;

pub const EVENT_LIBRARY: u32 = 2;

pub const EVENT_TOGGLE: u32 = 3;

pub const EVENT_NEXT: u32 = 4;

pub const EVENT_LYRICS: u32 = 5;

pub const EVENT_NOW_PLAYING: u32 = 6;

/// The event of the first song row; the song at index `i` sends this plus `i`.
pub const EVENT_LOCAL_SONG_BASE: u32 = 1000;

/// The most song rows that the library screen shows.
pub const MAX_SONG_ROWS: usize = 20;

/// An event sent back by a row of the screen.
#[derive(Clone, Copy, Debug, PartialEq, Eq, Structural)]
pub struct UiEvent(pub u32);

impl UiEvent {
    /// The number of the event.
    pub fn code(self) -> (r: u32)
        ensures
            r == self.0,
    {
        self.0
    }
}

/// How a text is shown.
#[derive(Clone, Copy, Debug, PartialEq, Eq, Structural)]
pub enum TextStyle {
    Title,
    Description,
    Warning,
}

/// One row of a screen.
#[derive(Debug)]
pub enum Node {
    Text { key: u32, text: String, style: TextStyle },
    Action { key: u32, label: String, detail: String, event: UiEvent, enabled: bool },
    Status { key: u32, label: String, value: String },
    Progress { key: u32, value: i32, minimum: i32, maximum: i32, width: u32, height: u32 },
    Image { key: u32, id: u32, url: String, width: u32, height: u32 },
}

/// The abstract value of a [`Node`].
pub enum NodeView {
    Text { key: u32, text: Seq<char>, style: TextStyle },
    Action { key: u32, label: Seq<char>, detail: Seq<char>, event: u32, enabled: bool },
    Status { key: u32, label: Seq<char>, value: Seq<char> },
    Progress { key: u32, value: i32, minimum: i32, maximum: i32, width: u32, height: u32 },
    Image { key: u32, id: u32, url: Seq<char>, width: u32, height: u32 },
}

impl View for Node {
    type V = NodeView;

    open spec fn view(&self) -> NodeView {
        match self {
            Node::Text { key, text, style } => NodeView::Text { key: *key, text: text@, style: *style },
            Node::Action { key, label, detail, event, enabled } => NodeView::Action {
                key: *key,
                label: label@,
                detail: detail@,
                event: event.0,
                enabled: *enabled,
            },
            Node::Status { key, label, value } => NodeView::Status {
                key: *key,
                label: label@,
                value: value@,
            },
            Node::Progress { key, value, minimum, maximum, width, height } => NodeView::Progress {
                key: *key,
                value: *value,
                minimum: *minimum,
                maximum: *maximum,
                width: *width,
                height: *height,
            },
            Node::Image { key, id, url, width, height } => NodeView::Image {
                key: *key,
                id: *id,
                url: url@,
                width: *width,
                height: *height,
            },
        }
    }
}

/// A screen: a navigation page with a title and rows, stamped with the
/// generation of the state it shows.
#[derive(Debug)]
pub struct Page {
    pub title: String,
    pub nodes: Vec<Node>,
    pub generation: u32,
}

/// The abstract rows of a page.
pub open spec fn nodes_view(nodes: Seq<Node>) -> Seq<NodeView> {
    nodes.map_values(|n: Node| n@)
}

/// The label of a playback state.
pub open spec fn state_label(state: PlaybackState) -> Seq<char> {
    match state {
        PlaybackState::Idle => "未播放"@,
        PlaybackState::Resolving => "正在打开文件"@,
        PlaybackState::Buffering => "缓冲中"@,
        PlaybackState::Playing => "播放中"@,
        PlaybackState::Paused => "已暂停"@,
        PlaybackState::Draining => "即将结束"@,
        PlaybackState::Failed => "播放失败"@,
    }
}

/// The label of a playback state.
pub fn playback_label(state: PlaybackState) -> (r: &'static str)
    ensures
        r@ == state_label(state),
{
    match state {
        PlaybackState::Idle => "未播放",
        PlaybackState::Resolving => "正在打开文件",
        PlaybackState::Buffering => "缓冲中",
        PlaybackState::Playing => "播放中",
        PlaybackState::Paused => "已暂停",
        PlaybackState::Draining => "即将结束",
        PlaybackState::Failed => "播放失败",
    }
}

/// A time in milliseconds as minutes and seconds, each of at least two digits.
pub open spec fn clock(ms: u32) -> Seq<char> {
    decimal_pad2((ms / 60000) as nat) + ":"@ + decimal_pad2((ms / 1000 % 60) as nat)
}

/// Position and duration as `mm:ss / mm:ss`.
pub open spec fn progress_label(position_ms: u32, duration_ms: u32) -> Seq<char> {
    clock(position_ms) + " / "@ + clock(duration_ms)
}

fn push_clock(out: &mut String, ms: u32)
    ensures
        final(out)@ == old(out)@ + clock(ms),
{
    push_decimal_pad2(out, (ms / 60000) as u64);
    out.append(":");
    push_decimal_pad2(out, (ms / 1000 % 60) as u64);
}

/// Position and duration as `mm:ss / mm:ss`.
pub fn progress_text(position_ms: u32, duration_ms: u32) -> (r: String)
    ensures
        r@ == progress_label(position_ms, duration_ms),
{
    let mut s = String::new();
    push_clock(&mut s, position_ms);
    s.append(" / ");
    push_clock(&mut s, duration_ms);
    assert(s@ =~= progress_label(position_ms, duration_ms));
    s
}

/// The row of the app's error, if it has one.
pub open spec fn error_rows(error: Option<String>) -> Seq<NodeView> {
    match error {
        Some(e) => seq![NodeView::Text { key: 90, text: e@, style: TextStyle::Warning }],
        None => seq![],
    }
}

/// The rows of the home screen.
pub open spec fn home_rows(app: LyraApp) -> Seq<NodeView> {
    let now = match app.player.current {
        Some(s) => s.name@,
        None => "暂无播放"@,
    };
    seq![
        NodeView::Text { key: 2, text: "腕上本地音乐"@, style: TextStyle::Title },
        NodeView::Action {
            key: 3,
            label: now,
            detail: state_label(app.player.state),
            event: EVENT_NOW_PLAYING,
            enabled: app.player.current is Some,
        },
        NodeView::Action {
            key: 4,
            label: "本地音乐"@,
            detail: decimal(app.local_tracks@.len()) + " 首歌曲"@,
            event: EVENT_LIBRARY,
            enabled: true,
        },
        NodeView::Text {
            key: 5,
            text: "请通过 Lyra Import 快应用导入音乐"@,
            style: TextStyle::Description,
        },
    ] + error_rows(app.error)
}

/// The row of the song at index `i` of the library.
pub open spec fn song_row(song: Song, i: int) -> NodeView {
    NodeView::Action {
        key: (100 + i) as u32,
        label: song.name@,
        detail: joined_names(song@.artists),
        event: (EVENT_LOCAL_SONG_BASE + i) as u32,
        enabled: true,
    }
}

/// The rows of the first songs, at most twenty.
pub open spec fn song_rows(songs: Seq<Song>) -> Seq<NodeView> {
    let n = if songs.len() < MAX_SONG_ROWS {
        songs.len() as int
    } else {
        MAX_SONG_ROWS as int
    };
    Seq::new(n as nat, |i: int| song_row(songs[i], i))
}

/// The rows of the library screen.
pub open spec fn library_rows(app: LyraApp) -> Seq<NodeView> {
    let hint = if app.local_tracks@.len() == 0 {
        "暂无音乐，请先打开 Lyra Import"@
    } else {
        "来自 Lyra Import 的音频、封面与歌词"@
    };
    seq![NodeView::Text { key: 2, text: hint, style: TextStyle::Description }] + song_rows(
        app.local_tracks@,
    ) + seq![
        NodeView::Action {
            key: 3,
            label: "返回"@,
            detail: "回到 Lyra"@,
            event: EVENT_BACK,
            enabled: true,
        },
    ] + error_rows(app.error)
}

/// The cover row of a song, where it has a cover.
pub open spec fn cover_rows(song: Song) -> Seq<NodeView> {
    if song.album.cover_url@.len() == 0 {
        seq![]
    } else {
        seq![
            NodeView::Image {
                key: 40,
                id: song.id as u32,
                url: song.album.cover_url@,
                width: 180,
                height: 180,
            },
        ]
    }
}

/// The largest `i32` as a `u32`.
pub open spec fn i32_top() -> u32 {
    0x7fff_ffff
}

/// The value of the progress bar: the position, at most the duration.
pub open spec fn progress_value(position_ms: u32, duration_ms: u32) -> i32 {
    let v = if position_ms < duration_ms {
        position_ms
    } else {
        duration_ms
    };
    (if v < i32_top() {
        v
    } else {
        i32_top()
    }) as i32
}

/// The end of the progress bar: the duration, at least 1.
pub open spec fn progress_maximum(duration_ms: u32) -> i32 {
    let v = if duration_ms > 1 {
        duration_ms
    } else {
        1
    };
    (if v < i32_top() {
        v
    } else {
        i32_top()
    }) as i32
}

/// The rows of the player screen.
pub open spec fn player_rows(app: LyraApp) -> Seq<NodeView> {
    match app.player.current {
        None => seq![
            NodeView::Text { key: 2, text: "还没有选择歌曲"@, style: TextStyle::Description },
            NodeView::Action {
                key: 3,
                label: "返回"@,
                detail: "选择一首本地音乐"@,
                event: EVENT_BACK,
                enabled: true,
            },
        ],
        Some(song) => {
            let p = app.player;
            let toggle = if p.state == PlaybackState::Paused {
                "继续播放"@
            } else {
                "暂停"@
            };
            cover_rows(song) + seq![
                NodeView::Text { key: 2, text: song.name@, style: TextStyle::Title },
                NodeView::Text {
                    key: 3,
                    text: joined_names(song@.artists),
                    style: TextStyle::Description,
                },
                NodeView::Text { key: 4, text: "暂无歌词"@, style: TextStyle::Warning },
                NodeView::Status {
                    key: 5,
                    label: progress_label(p.position_ms, p.duration_ms),
                    value: state_label(p.state),
                },
                NodeView::Progress {
                    key: 50,
                    value: progress_value(p.position_ms, p.duration_ms),
                    minimum: 0,
                    maximum: progress_maximum(p.duration_ms),
                    width: 280,
                    height: 14,
                },
                NodeView::Action {
                    key: 6,
                    label: toggle,
                    detail: "播放控制"@,
                    event: EVENT_TOGGLE,
                    enabled: p.state == PlaybackState::Playing || p.state == PlaybackState::Paused
                        || p.state == PlaybackState::Buffering,
                },
                NodeView::Action {
                    key: 7,
                    label: "下一首"@,
                    detail: "播放队列中的下一首"@,
                    event: EVENT_NEXT,
                    enabled: p.queue@.len() > 0,
                },
                NodeView::Action {
                    key: 8,
                    label: "歌词"@,
                    detail: "跟随播放进度"@,
                    event: EVENT_LYRICS,
                    enabled: false,
                },
                NodeView::Action {
                    key: 9,
                    label: "返回"@,
                    detail: "音乐会继续播放"@,
                    event: EVENT_BACK,
                    enabled: true,
                },
            ] + error_rows(app.error)
        },
    }
}

/// The title of a route's screen.
pub open spec fn route_title(route: Route) -> Seq<char> {
    match route {
        Route::Home => "Lyra"@,
        Route::Library => "本地音乐"@,
        Route::Player => "正在播放"@,
    }
}

/// The rows of the screen of the app's route.
pub open spec fn screen_rows(app: LyraApp) -> Seq<NodeView> {
    match app.route {
        Route::Home => home_rows(app),
        Route::Library => library_rows(app),
        Route::Player => player_rows(app),
    }
}

fn text_node(key: u32, text: &str, style: TextStyle) -> (n: Node)
    ensures
        n@ == (NodeView::Text { key, text: text@, style }),
{
    Node::Text { key, text: String::from_str(text), style }
}

fn action_node(key: u32, label: &str, detail: &str, event: u32, enabled: bool) -> (n: Node)
    ensures
        n@ == (NodeView::Action { key, label: label@, detail: detail@, event, enabled }),
{
    Node::Action {
        key,
        label: String::from_str(label),
        detail: String::from_str(detail),
        event: UiEvent(event),
        enabled,
    }
}

/// Appends a row.
fn push_node(nodes: &mut Vec<Node>, n: Node)
    ensures
        nodes_view(final(nodes)@) == nodes_view(old(nodes)@).push(n@),
{
    let ghost before = nodes@;
    nodes.push(n);
    assert(nodes_view(nodes@) =~= nodes_view(before).push(n@));
}

/// Appends the error row, if any.
fn push_error(nodes: &mut Vec<Node>, error: &Option<String>)
    ensures
        nodes_view(final(nodes)@) == nodes_view(old(nodes)@) + error_rows(*error),
{
    match error {
        Some(e) => push_node(nodes, text_node(90, e.as_str(), TextStyle::Warning)),
        None => {
            assert(nodes_view(nodes@) =~= nodes_view(nodes@) + error_rows(*error));
        },
    }
}

fn home_nodes(app: &LyraApp) -> (nodes: Vec<Node>)
    ensures
        nodes_view(nodes@) == home_rows(*app),
{
    let mut nodes: Vec<Node> = Vec::new();
    push_node(&mut nodes, text_node(2, "腕上本地音乐", TextStyle::Title));
    let now = match &app.player.current {
        Some(s) => s.name.as_str(),
        None => "暂无播放",
    };
    push_node(
        &mut nodes,
        action_node(
            3,
            now,
            playback_label(app.player.state),
            EVENT_NOW_PLAYING,
            app.player.current.is_some(),
        ),
    );
    let mut count = String::new();
    push_decimal(&mut count, app.local_tracks.len() as u64);
    count.append(" 首歌曲");
    push_node(&mut nodes, action_node(4, "本地音乐", count.as_str(), EVENT_LIBRARY, true));
    push_node(&mut nodes, text_node(5, "请通过 Lyra Import 快应用导入音乐", TextStyle::Description));
    push_error(&mut nodes, &app.error);
    assert(nodes_view(nodes@) =~= home_rows(*app));
    nodes
}

fn library_nodes(app: &LyraApp) -> (nodes: Vec<Node>)
    ensures
        nodes_view(nodes@) == library_rows(*app),
{
    let mut nodes: Vec<Node> = Vec::new();
    let hint = if app.local_tracks.len() == 0 {
        "暂无音乐，请先打开 Lyra Import"
    } else {
        "来自 Lyra Import 的音频、封面与歌词"
    };
    push_node(&mut nodes, text_node(2, hint, TextStyle::Description));
    let ghost head = nodes_view(nodes@);
    let limit = if app.local_tracks.len() < MAX_SONG_ROWS {
        app.local_tracks.len()
    } else {
        MAX_SONG_ROWS
    };
    let mut i: usize = 0;
    while i < limit
        invariant
            i <= limit,
            limit <= MAX_SONG_ROWS,
            limit <= app.local_tracks@.len(),
            limit == song_rows(app.local_tracks@).len(),
            nodes_view(nodes@) == head + song_rows(app.local_tracks@).take(i as int),
        decreases limit - i,
    {
        let song = &app.local_tracks[i];
        let artists = song.artist_line();
        let row = action_node(
            100 + i as u32,
            song.name.as_str(),
            artists.as_str(),
            EVENT_LOCAL_SONG_BASE + i as u32,
            true,
        );
        assert(row@ == song_row(app.local_tracks@[i as int], i as int));
        push_node(&mut nodes, row);
        assert(song_rows(app.local_tracks@).take(i as int + 1) =~= song_rows(
            app.local_tracks@,
        ).take(i as int).push(song_row(app.local_tracks@[i as int], i as int)));
        i = i + 1;
    }
    assert(song_rows(app.local_tracks@).take(limit as int) =~= song_rows(app.local_tracks@));
    push_node(&mut nodes, action_node(3, "返回", "回到 Lyra", EVENT_BACK, true));
    push_error(&mut nodes, &app.error);
    assert(nodes_view(nodes@) =~= library_rows(*app));
    nodes
}

fn bar_value(position_ms: u32, duration_ms: u32) -> (r: i32)
    ensures
        r == progress_value(position_ms, duration_ms),
{
    let v = if position_ms < duration_ms {
        position_ms
    } else {
        duration_ms
    };
    (if v < 0x7fff_ffff {
        v
    } else {
        0x7fff_ffff
    }) as i32
}

fn bar_maximum(duration_ms: u32) -> (r: i32)
    ensures
        r == progress_maximum(duration_ms),
{
    let v = if duration_ms > 1 {
        duration_ms
    } else {
        1
    };
    (if v < 0x7fff_ffff {
        v
    } else {
        0x7fff_ffff
    }) as i32
}

fn player_nodes(app: &LyraApp) -> (nodes: Vec<Node>)
    ensures
        nodes_view(nodes@) == player_rows(*app),
{
    let mut nodes: Vec<Node> = Vec::new();
    let song = match &app.player.current {
        None => {
            push_node(&mut nodes, text_node(2, "还没有选择歌曲", TextStyle::Description));
            push_node(&mut nodes, action_node(3, "返回", "选择一首本地音乐", EVENT_BACK, true));
            assert(nodes_view(nodes@) =~= player_rows(*app));
            return nodes;
        },
        Some(s) => s,
    };
    let p = &app.player;
    if song.album.cover_url.unicode_len() > 0 {
        push_node(
            &mut nodes,
            Node::Image {
                key: 40,
                id: song.id as u32,
                url: song.album.cover_url.clone(),
                width: 180,
                height: 180,
            },
        );
    }
    assert(nodes_view(nodes@) =~= cover_rows(*song));
    push_node(&mut nodes, text_node(2, song.name.as_str(), TextStyle::Title));
    let artists = song.artist_line();
    push_node(&mut nodes, text_node(3, artists.as_str(), TextStyle::Description));
    push_node(&mut nodes, text_node(4, "暂无歌词", TextStyle::Warning));
    let progress = progress_text(p.position_ms, p.duration_ms);
    push_node(
        &mut nodes,
        Node::Status {
            key: 5,
            label: progress,
            value: String::from_str(playback_label(p.state)),
        },
    );
    push_node(
        &mut nodes,
        Node::Progress {
            key: 50,
            value: bar_value(p.position_ms, p.duration_ms),
            minimum: 0,
            maximum: bar_maximum(p.duration_ms),
            width: 280,
            height: 14,
        },
    );
    let toggle = if p.state == PlaybackState::Paused {
        "继续播放"
    } else {
        "暂停"
    };
    let playable = p.state == PlaybackState::Playing || p.state == PlaybackState::Paused
        || p.state == PlaybackState::Buffering;
    push_node(&mut nodes, action_node(6, toggle, "播放控制", EVENT_TOGGLE, playable));
    push_node(
        &mut nodes,
        action_node(7, "下一首", "播放队列中的下一首", EVENT_NEXT, p.queue.len() > 0),
    );
    push_node(&mut nodes, action_node(8, "歌词", "跟随播放进度", EVENT_LYRICS, false));
    push_node(&mut nodes, action_node(9, "返回", "音乐会继续播放", EVENT_BACK, true));
    push_error(&mut nodes, &app.error);
    assert(nodes_view(nodes@) =~= player_rows(*app));
    nodes
}

/// The screen of the app's route: its title, its rows and the app's generation.
pub fn render(app: &LyraApp) -> (page: Page)
    ensures
        page.title@ == route_title(app.route),
        nodes_view(page.nodes@) == screen_rows(*app),
        page.generation == app.generation,
{
    match app.route {
        Route::Home => Page {
            title: String::from_str("Lyra"),
            nodes: home_nodes(app),
            generation: app.generation,
        },
        Route::Library => Page {
            title: String::from_str("本地音乐"),
            nodes: library_nodes(app),
            generation: app.generation,
        },
        Route::Player => Page {
            title: String::from_str("正在播放"),
            nodes: player_nodes(app),
            generation: app.generation,
        },
    }
}

} // verus!
