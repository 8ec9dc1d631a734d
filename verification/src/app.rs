//! The player application: pages, navigation history, the local library and
//! the reaction to each user action.
use vstd::prelude::*;

use crate::model::{Song, SongView, opt_string_view, same_songs, songs_view};
use crate::playback::{PlaybackState, Player, opt_song_view};

verus! {

/// A page of the player.
#[derive(Clone, Copy, Debug, PartialEq, Eq, Structural)]
pub enum Route {
    Home,
    Library,
    Player,
}

impl Default for Route {
    fn default() -> (r: Route)
        ensures
            r == Route::Home,
    {
        Route::Home
    }
}

/// The index of a route among the pages.
pub open spec fn route_index(route: Route) -> nat {
    match route {
        Route::Home => 0,
        Route::Library => 1,
        Route::Player => 2,
    }
}

impl Route {
    /// The index of this route among the pages.
    pub fn page_index(self) -> (r: usize)
        ensures
            r == route_index(self),
    {
        match self {
            Route::Home => 0,
            Route::Library => 1,
            Route::Player => 2,
        }
    }

    /// The route at a page index, if there is one.
    pub fn from_page_index(index: usize) -> (r: Option<Route>)
        ensures
            match r {
                Some(route) => route_index(route) == index,
                None => index > 2,
            },
    {
        match index {
            0 => Some(Route::Home),
            1 => Some(Route::Library),
            2 => Some(Route::Player),
            _ => None,
        }
    }
}

/// Work that the application asks its host to do.
#[derive(Clone, Debug)]
pub enum Effect {
    StreamAudio { path: String },
    Navigate(Route),
}

/// The abstract value of an [`Effect`].
pub enum EffectView {
    StreamAudio(Seq<char>),
    Navigate(Route),
}

impl View for Effect {
    type V = EffectView;

    open spec fn view(&self) -> EffectView {
        match self {
            Effect::StreamAudio { path } => EffectView::StreamAudio(path@),
            Effect::Navigate(route) => EffectView::Navigate(*route),
        }
    }
}

/// The views of a sequence of effects.
pub open spec fn effects_view(effects: Seq<Effect>) -> Seq<EffectView> {
    effects.map_values(|e: Effect| e@)
}

/// What the user or the host did.
#[derive(Clone, Debug)]
pub enum Action {
    Boot(Vec<Song>),
    Open(Route),
    Back,
    ReloadLibrary(Vec<Song>),
    SelectSong(Song),
    Previous,
    Next,
    Tick(u32),
}

/// The player application.
#[derive(Clone, Debug)]
pub struct LyraApp {
    pub route: Route,
    pub history: Vec<Route>,
    pub local_tracks: Vec<Song>,
    pub player: Player,
    pub error: Option<String>,
    pub generation: u32,
}

/// The message shown when a song has no local audio file.
pub open spec fn missing_audio_message() -> Seq<char> {
    "歌曲缺少本地音频文件"@
}

/// The generation after a change: one more, and never zero.
pub open spec fn touched(generation: u32) -> u32 {
    if generation == u32::MAX {
        1
    } else {
        (generation + 1) as u32
    }
}

/// The route and history after opening `to`.
pub open spec fn route_after_open(route: Route, history: Seq<Route>, to: Route) -> (Route, Seq<Route>) {
    if route == to {
        (route, history)
    } else {
        (to, history.push(route))
    }
}

/// The route and history after going back.
pub open spec fn route_after_back(route: Route, history: Seq<Route>) -> (Route, Seq<Route>) {
    if history.len() == 0 {
        (route, history)
    } else {
        (history.last(), history.drop_last())
    }
}

/// The effects of opening `to` from `route`.
pub open spec fn navigation_effects(route: Route, to: Route) -> Seq<EffectView> {
    if route == to {
        Seq::empty()
    } else {
        seq![EffectView::Navigate(to)]
    }
}

/// The first position of a song with `id`.
pub open spec fn position_of_id(tracks: Seq<SongView>, id: u64) -> Option<nat>
    decreases tracks.len(),
{
    if tracks.len() == 0 {
        None
    } else if tracks[0].id == id {
        Some(0)
    } else {
        match position_of_id(tracks.drop_first(), id) {
            Some(i) => Some(i + 1),
            None => None,
        }
    }
}

/// The position of the song before or after the current one in the library, if there is one.
pub open spec fn adjacent_index(tracks: Seq<SongView>, current: Option<SongView>, next: bool) -> Option<nat> {
    match current {
        None => None,
        Some(song) => match position_of_id(tracks, song.id) {
            None => None,
            Some(i) => if next {
                if i + 1 < tracks.len() {
                    Some((i + 1) as nat)
                } else {
                    None
                }
            } else {
                if i >= 1 {
                    Some((i - 1) as nat)
                } else {
                    None
                }
            },
        },
    }
}

/// A found position lies in the library and names the song with that id.
pub proof fn lemma_position_of_id(tracks: Seq<SongView>, id: u64)
    ensures
        position_of_id(tracks, id) matches Some(i) ==> i < tracks.len() && tracks[i as int].id
            == id && forall|j: int| 0 <= j < i ==> tracks[j].id != id,
        position_of_id(tracks, id) is None ==> forall|j: int|
            0 <= j < tracks.len() ==> tracks[j].id != id,
    decreases tracks.len(),
{
    if tracks.len() > 0 {
        lemma_position_of_id(tracks.drop_first(), id);
        if tracks[0].id != id {
            assert forall|j: int| 1 <= j < tracks.len() implies tracks[j] == tracks.drop_first()[j
                - 1] by {}
        }
    }
}

impl LyraApp {
    /// Everything of the application that selecting `song` does, except the
    /// player's queue, which becomes empty.
    pub open spec fn selected(old: LyraApp, new: LyraApp, song: SongView, effects: Seq<EffectView>) -> bool {
        let nav = navigation_effects(old.route, Route::Player);
        &&& opt_song_view(new.player.current) == Some(song)
        &&& new.player.duration_ms == song.duration_ms
        &&& new.player.position_ms == 0
        &&& new.player.queue@.len() == 0
        &&& new.player.stream_id is None
        &&& new.player.error is None
        &&& new.player.wf()
        &&& new.player.pending_bytes().len() == 0
        &&& new.player.volume_percent == old.player.volume_percent
        &&& (new.route, new.history@) == route_after_open(old.route, old.history@, Route::Player)
        &&& new.local_tracks == old.local_tracks
        &&& new.generation == touched(old.generation)
        &&& match song.local_path {
            Some(path) => {
                &&& new.player.state == PlaybackState::Resolving
                &&& new.error is None
                &&& effects == nav + seq![EffectView::StreamAudio(path)]
            },
            None => {
                &&& new.player.state == PlaybackState::Failed
                &&& opt_string_view(new.error) == Some(missing_audio_message())
                &&& effects == nav
            },
        }
    }

    /// Only the generation changed, by one step.
    pub open spec fn only_touched(old: LyraApp, new: LyraApp) -> bool {
        &&& new.route == old.route
        &&& new.history == old.history
        &&& new.local_tracks == old.local_tracks
        &&& new.player == old.player
        &&& new.error == old.error
        &&& new.generation == touched(old.generation)
    }

    /// Applies one action and returns the work it asks of the host.
    /// What `update` does with `action`: the application after it and the
    /// views of the effects it returns.
    pub open spec fn updated(old: LyraApp, action: Action, new: LyraApp, effects: Seq<EffectView>) -> bool {
        match action {
            Action::Boot(tracks) | Action::ReloadLibrary(tracks) => {
                if songs_view(old.local_tracks@) == songs_view(tracks@) {
                    &&& new == old
                    &&& effects.len() == 0
                } else {
                    &&& new.local_tracks == tracks
                    &&& new.route == old.route
                    &&& new.history == old.history
                    &&& new.player == old.player
                    &&& new.error == old.error
                    &&& new.generation == touched(old.generation)
                    &&& effects.len() == 0
                }
            },
            Action::Open(to) => {
                &&& (new.route, new.history@) == route_after_open(
                    old.route,
                    old.history@,
                    to,
                )
                &&& effects == navigation_effects(old.route, to)
                &&& new.local_tracks == old.local_tracks
                &&& new.player == old.player
                &&& new.error == old.error
                &&& new.generation == touched(old.generation)
            },
            Action::Back => {
                &&& (new.route, new.history@) == route_after_back(
                    old.route,
                    old.history@,
                )
                &&& effects.len() == 0
                &&& new.local_tracks == old.local_tracks
                &&& new.player == old.player
                &&& new.error == old.error
                &&& new.generation == touched(old.generation)
            },
            Action::SelectSong(song) => Self::selected(
                old,
                new,
                song@,
                effects,
            ),
            Action::Previous | Action::Next => {
                let next = action is Next;
                match adjacent_index(
                    songs_view(old.local_tracks@),
                    opt_song_view(old.player.current),
                    next,
                ) {
                    Some(i) => Self::selected(
                        old,
                        new,
                        old.local_tracks@[i as int]@,
                        effects,
                    ),
                    None => Self::only_touched(old, new) && effects.len()
                        == 0,
                }
            },
            Action::Tick(ms) => {
                &&& new.player.position_ms == (if old.player.state
                    == PlaybackState::Playing {
                    crate::playback::advanced_position(
                        old.player.position_ms,
                        old.player.duration_ms,
                        ms,
                    )
                } else {
                    old.player.position_ms
                })
                &&& new.player.state == old.player.state
                &&& new.player.current == old.player.current
                &&& new.player.queue == old.player.queue
                &&& new.player.duration_ms == old.player.duration_ms
                &&& new.player.pending_audio == old.player.pending_audio
                &&& new.player.volume_percent == old.player.volume_percent
                &&& new.player.stream_id == old.player.stream_id
                &&& new.player.error == old.player.error
                &&& new.route == old.route
                &&& new.history == old.history
                &&& new.local_tracks == old.local_tracks
                &&& new.error == old.error
                &&& new.generation == touched(old.generation)
                &&& effects.len() == 0
            },
        }
    }

    pub fn update(&mut self, action: Action) -> (effects: Vec<Effect>)
        ensures
            old(self).generation != 0 ==> final(self).generation != 0,
            Self::updated(*old(self), action, *final(self), effects_view(effects@)),
    {
        let mut effects: Vec<Effect> = Vec::new();
        match action {
            Action::Boot(tracks) | Action::ReloadLibrary(tracks) => {
                if same_songs(&self.local_tracks, &tracks) {
                    return effects;
                }
                self.local_tracks = tracks;
            },
            Action::Open(route) => {
                self.navigate(route, &mut effects);
            },
            Action::Back => {
                let ghost h = self.history@;
                match self.history.pop() {
                    Some(route) => {
                        self.route = route;
                    },
                    None => {},
                }
                assert(self.history@ =~= route_after_back(old(self).route, h).1);
            },
            Action::SelectSong(song) => {
                self.select_song(song, &mut effects);
                return effects;
            },
            Action::Previous => {
                match self.adjacent_song(false) {
                    Some(song) => {
                        self.select_song(song, &mut effects);
                        return effects;
                    },
                    None => {},
                }
            },
            Action::Next => {
                match self.adjacent_song(true) {
                    Some(song) => {
                        self.select_song(song, &mut effects);
                        return effects;
                    },
                    None => {},
                }
            },
            Action::Tick(ms) => {
                self.player.tick(ms);
            },
        }
        self.touch();
        effects
    }

    /// Plays `song`: selects it, opens the player page and asks for its local audio.
    fn select_song(&mut self, song: Song, effects: &mut Vec<Effect>)
        requires
            old(effects)@.len() == 0,
        ensures
            Self::selected(*old(self), *final(self), song@, effects_view(final(effects)@)),
    {
        let path = crate::model::copy_opt_string(&song.local_path);
        let ghost sv = song@;
        self.player.select(song, Vec::new());
        assert(songs_view(Seq::<Song>::empty()) =~= Seq::<SongView>::empty());
        self.error = None;
        self.navigate(Route::Player, effects);
        assert(effects_view(old(effects)@) =~= Seq::<EffectView>::empty());
        assert(effects_view(effects@) =~= navigation_effects(old(self).route, Route::Player));
        match path {
            Some(path) => {
                let ghost before = effects@;
                effects.push(Effect::StreamAudio { path });
                assert(effects_view(effects@) =~= effects_view(before).push(
                    EffectView::StreamAudio(sv.local_path.unwrap()),
                ));
                assert(effects_view(effects@) =~= navigation_effects(old(self).route, Route::Player)
                    + seq![EffectView::StreamAudio(sv.local_path.unwrap())]);
            },
            None => {
                self.player.state = PlaybackState::Failed;
                self.error = Some(String::from_str("歌曲缺少本地音频文件"));
            },
        }
        self.touch();
    }

    /// Whether the library has a song before the current one.
    pub fn has_previous(&self) -> (r: bool)
        ensures
            r == adjacent_index(
                songs_view(self.local_tracks@),
                opt_song_view(self.player.current),
                false,
            ) is Some,
    {
        self.adjacent_song(false).is_some()
    }

    /// Whether the library has a song after the current one.
    pub fn has_next(&self) -> (r: bool)
        ensures
            r == adjacent_index(
                songs_view(self.local_tracks@),
                opt_song_view(self.player.current),
                true,
            ) is Some,
    {
        self.adjacent_song(true).is_some()
    }

    /// A copy of the library song before or after the current one.
    fn adjacent_song(&self, next: bool) -> (r: Option<Song>)
        ensures
            match adjacent_index(
                songs_view(self.local_tracks@),
                opt_song_view(self.player.current),
                next,
            ) {
                Some(i) => r matches Some(song) && song@ == self.local_tracks@[i as int]@,
                None => r is None,
            },
    {
        let id = match &self.player.current {
            Some(song) => song.id,
            None => return None,
        };
        let ghost tracks = songs_view(self.local_tracks@);
        proof {
            lemma_position_of_id(tracks, id);
        }
        let mut index: usize = 0;
        while index < self.local_tracks.len() && self.local_tracks[index].id != id
            invariant
                tracks == songs_view(self.local_tracks@),
                index <= self.local_tracks@.len(),
                forall|j: int| 0 <= j < index ==> tracks[j].id != id,
            decreases self.local_tracks@.len() - index,
        {
            index = index + 1;
        }
        if index == self.local_tracks.len() {
            return None;
        }
        proof {
            assert(tracks[index as int].id == id);
            match position_of_id(tracks, id) {
                Some(p) => {
                    assert(p == index);
                },
                None => {},
            }
        }
        let adjacent = if next {
            index + 1
        } else {
            if index == 0 {
                return None;
            }
            index - 1
        };
        if adjacent < self.local_tracks.len() {
            Some(self.local_tracks[adjacent].duplicate())
        } else {
            None
        }
    }

    /// Opens `route`, remembering the current one, unless it is already open.
    fn navigate(&mut self, route: Route, effects: &mut Vec<Effect>)
        ensures
            (final(self).route, final(self).history@) == route_after_open(
                old(self).route,
                old(self).history@,
                route,
            ),
            effects_view(final(effects)@) == effects_view(old(effects)@) + navigation_effects(
                old(self).route,
                route,
            ),
            final(self).local_tracks == old(self).local_tracks,
            final(self).player == old(self).player,
            final(self).error == old(self).error,
            final(self).generation == old(self).generation,
    {
        if self.route == route {
            assert(effects_view(effects@) =~= effects_view(effects@) + Seq::<EffectView>::empty());
            return ;
        }
        let ghost before = effects@;
        self.history.push(self.route);
        self.route = route;
        effects.push(Effect::Navigate(route));
        assert(effects_view(effects@) =~= effects_view(before) + seq![EffectView::Navigate(route)]);
    }

    /// Marks the application as changed.
    fn touch(&mut self)
        ensures
            final(self).generation == touched(old(self).generation),
            final(self).route == old(self).route,
            final(self).history == old(self).history,
            final(self).local_tracks == old(self).local_tracks,
            final(self).player == old(self).player,
            final(self).error == old(self).error,
    {
        self.generation = if self.generation == u32::MAX {
            1
        } else {
            self.generation + 1
        };
    }
}

impl Default for LyraApp {
    fn default() -> (app: LyraApp)
        ensures
            app.route == Route::Home,
            app.history@.len() == 0,
            app.local_tracks@.len() == 0,
            app.player.wf(),
            app.player.state == PlaybackState::Idle,
            app.player.current is None,
            app.player.volume_percent == 100,
            app.error is None,
            app.generation == 1,
    {
        LyraApp {
            route: Route::Home,
            history: Vec::new(),
            local_tracks: Vec::new(),
            player: Player::default(),
            error: None,
            generation: 1,
        }
    }
}

/// Going back after opening another page returns to the page and history from before.
pub proof fn lemma_back_undoes_open(route: Route, history: Seq<Route>, to: Route)
    requires
        route != to,
    ensures
        ({
            let (r1, h1) = route_after_open(route, history, to);
            route_after_back(r1, h1) == (route, history)
        }),
{
    assert(history.push(route).drop_last() =~= history);
}

/// Next and Previous act exactly as selecting the song after or before the
/// current one in the library: the same application afterwards and the same
/// effects. With no such song they only touch the generation and ask for nothing.
pub proof fn lemma_step_is_select(old: LyraApp, new: LyraApp, effects: Seq<EffectView>, next: bool)
    ensures
        ({
            let step = if next {
                Action::Next
            } else {
                Action::Previous
            };
            match adjacent_index(songs_view(old.local_tracks@), opt_song_view(old.player.current), next) {
                Some(i) => i < old.local_tracks@.len() && (LyraApp::updated(old, step, new, effects)
                    <==> LyraApp::updated(
                    old,
                    Action::SelectSong(old.local_tracks@[i as int]),
                    new,
                    effects,
                )),
                None => LyraApp::updated(old, step, new, effects) <==> (LyraApp::only_touched(
                    old,
                    new,
                ) && effects.len() == 0),
            }
        }),
{
    let tracks = songs_view(old.local_tracks@);
    match opt_song_view(old.player.current) {
        Some(song) => {
            lemma_position_of_id(tracks, song.id);
        },
        None => {},
    }
}

/// Opening the page that is already open changes neither the page nor the
/// history; opening another one remembers the current page.
pub proof fn lemma_open_remembers_only_a_change(route: Route, history: Seq<Route>, to: Route)
    ensures
        route == to ==> route_after_open(route, history, to) == (route, history),
        route != to ==> route_after_open(route, history, to) == (to, history.push(route)),
{
}

/// Stepping to the next or previous song on the player page stays there and
/// leaves the history alone, so Back after any number of steps returns to
/// the page that opened the player.
pub proof fn lemma_step_on_player_keeps_history(
    old: LyraApp,
    new: LyraApp,
    effects: Seq<EffectView>,
    next: bool,
)
    requires
        old.route == Route::Player,
        LyraApp::updated(
            old,
            if next {
                Action::Next
            } else {
                Action::Previous
            },
            new,
            effects,
        ),
    ensures
        new.route == Route::Player,
        new.history@ == old.history@,
        route_after_back(new.route, new.history@) == route_after_back(old.route, old.history@),
{
}

/// A change never leaves the generation at zero.
pub proof fn lemma_touched_nonzero(generation: u32)
    ensures
        touched(generation) != 0,
{
}

/// There is nothing after the last song of the library, and nothing before the first.
pub proof fn lemma_no_wrap(tracks: Seq<SongView>, current: SongView)
    requires
        position_of_id(tracks, current.id) is Some,
    ensures
        position_of_id(tracks, current.id) == Some((tracks.len() - 1) as nat) ==> adjacent_index(
            tracks,
            Some(current),
            true,
        ) is None,
        position_of_id(tracks, current.id) == Some(0nat) ==> adjacent_index(
            tracks,
            Some(current),
            false,
        ) is None,
{
}

} // verus!
