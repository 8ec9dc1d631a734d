//! The music catalogue as the player sees it: songs, artists, albums,
//! playlists and the account session.
use vstd::prelude::*;

verus! {

/// An artist as named by a song.
#[derive(Clone, Debug, Default, PartialEq, Eq)]
pub struct ArtistRef {
    pub id: u64,
    pub name: String,
}

/// An album as named by a song.
#[derive(Clone, Debug, Default, PartialEq, Eq)]
pub struct AlbumRef {
    pub id: u64,
    pub name: String,
    pub cover_url: String,
}

/// One track, either from the cloud catalogue or from the local library.
#[derive(Clone, Debug, Default, PartialEq, Eq)]
pub struct Song {
    pub id: u64,
    pub name: String,
    pub artists: Vec<ArtistRef>,
    pub album: AlbumRef,
    pub duration_ms: u32,
    pub local_path: Option<String>,
}

/// The abstract value of an [`ArtistRef`].
#[verifier::ext_equal]
pub struct ArtistRefView {
    pub id: u64,
    pub name: Seq<char>,
}

/// The abstract value of an [`AlbumRef`].
#[verifier::ext_equal]
pub struct AlbumRefView {
    pub id: u64,
    pub name: Seq<char>,
    pub cover_url: Seq<char>,
}

/// The abstract value of a [`Song`].
#[verifier::ext_equal]
pub struct SongView {
    pub id: u64,
    pub name: Seq<char>,
    pub artists: Seq<ArtistRefView>,
    pub album: AlbumRefView,
    pub duration_ms: u32,
    pub local_path: Option<Seq<char>>,
}

impl View for ArtistRef {
    type V = ArtistRefView;

    open spec fn view(&self) -> ArtistRefView {
        ArtistRefView { id: self.id, name: self.name@ }
    }
}

impl View for AlbumRef {
    type V = AlbumRefView;

    open spec fn view(&self) -> AlbumRefView {
        AlbumRefView { id: self.id, name: self.name@, cover_url: self.cover_url@ }
    }
}

/// The view of an optional string.
pub open spec fn opt_string_view(s: Option<String>) -> Option<Seq<char>> {
    match s {
        Some(s) => Some(s@),
        None => None,
    }
}

/// The views of a sequence of artists.
pub open spec fn artists_view(artists: Seq<ArtistRef>) -> Seq<ArtistRefView> {
    artists.map_values(|a: ArtistRef| a@)
}

impl View for Song {
    type V = SongView;

    open spec fn view(&self) -> SongView {
        SongView {
            id: self.id,
            name: self.name@,
            artists: artists_view(self.artists@),
            album: self.album@,
            duration_ms: self.duration_ms,
            local_path: opt_string_view(self.local_path),
        }
    }
}

/// The views of a sequence of songs.
pub open spec fn songs_view(songs: Seq<Song>) -> Seq<SongView> {
    songs.map_values(|s: Song| s@)
}

/// The artist names joined by `" / "`.
pub open spec fn joined_names(artists: Seq<ArtistRefView>) -> Seq<char>
    decreases artists.len(),
{
    if artists.len() == 0 {
        Seq::empty()
    } else if artists.len() == 1 {
        artists[0].name
    } else {
        joined_names(artists.drop_last()) + seq![' ', '/', ' '] + artists.last().name
    }
}

/// A copy of an optional string with the same view.
pub fn copy_opt_string(s: &Option<String>) -> (r: Option<String>)
    ensures
        opt_string_view(r) == opt_string_view(*s),
{
    match s {
        Some(v) => Some(v.clone()),
        None => None,
    }
}

/// Whether two optional strings have the same view.
pub fn same_opt_string(a: &Option<String>, b: &Option<String>) -> (r: bool)
    ensures
        r == (opt_string_view(*a) == opt_string_view(*b)),
{
    match (a, b) {
        (Some(x), Some(y)) => *x == *y,
        (None, None) => true,
        _ => false,
    }
}

impl ArtistRef {
    /// A copy with the same view.
    pub fn duplicate(&self) -> (r: ArtistRef)
        ensures
            r@ == self@,
    {
        ArtistRef { id: self.id, name: self.name.clone() }
    }
}

impl AlbumRef {
    /// A copy with the same view.
    pub fn duplicate(&self) -> (r: AlbumRef)
        ensures
            r@ == self@,
    {
        AlbumRef { id: self.id, name: self.name.clone(), cover_url: self.cover_url.clone() }
    }

    /// Whether two albums have the same view.
    pub fn same_as(&self, other: &AlbumRef) -> (r: bool)
        ensures
            r == (self@ == other@),
    {
        self.id == other.id && self.name == other.name && self.cover_url == other.cover_url
    }
}

/// A copy of a list of artists with the same views.
pub fn copy_artists(artists: &Vec<ArtistRef>) -> (r: Vec<ArtistRef>)
    ensures
        artists_view(r@) == artists_view(artists@),
{
    let mut out: Vec<ArtistRef> = Vec::new();
    let mut i: usize = 0;
    while i < artists.len()
        invariant
            i <= artists@.len(),
            out@.len() == i,
            forall|j: int| 0 <= j < i ==> #[trigger] out@[j]@ == artists@[j]@,
        decreases artists@.len() - i,
    {
        out.push(artists[i].duplicate());
        i = i + 1;
    }
    assert(artists_view(out@) =~= artists_view(artists@));
    out
}

/// Whether two lists of artists have the same views.
pub fn same_artists(a: &Vec<ArtistRef>, b: &Vec<ArtistRef>) -> (r: bool)
    ensures
        r == (artists_view(a@) == artists_view(b@)),
{
    if a.len() != b.len() {
        assert(artists_view(a@).len() != artists_view(b@).len());
        return false;
    }
    let mut i: usize = 0;
    while i < a.len()
        invariant
            a@.len() == b@.len(),
            i <= a@.len(),
            forall|j: int| 0 <= j < i ==> #[trigger] a@[j]@ == b@[j]@,
        decreases a@.len() - i,
    {
        if !(a[i].id == b[i].id && a[i].name == b[i].name) {
            assert(artists_view(a@)[i as int] != artists_view(b@)[i as int]);
            return false;
        }
        i = i + 1;
    }
    assert(artists_view(a@) =~= artists_view(b@));
    true
}

impl Song {
    /// A copy with the same view.
    pub fn duplicate(&self) -> (r: Song)
        ensures
            r@ == self@,
    {
        Song {
            id: self.id,
            name: self.name.clone(),
            artists: copy_artists(&self.artists),
            album: self.album.duplicate(),
            duration_ms: self.duration_ms,
            local_path: copy_opt_string(&self.local_path),
        }
    }

    /// Whether two songs have the same view.
    pub fn same_as(&self, other: &Song) -> (r: bool)
        ensures
            r == (self@ == other@),
    {
        self.id == other.id && self.name == other.name && same_artists(
            &self.artists,
            &other.artists,
        ) && self.album.same_as(&other.album) && self.duration_ms == other.duration_ms
            && same_opt_string(&self.local_path, &other.local_path)
    }

    /// The artists' names joined by `" / "`, as shown under a song title.
    pub fn artist_line(&self) -> (out: String)
        ensures
            out@ == joined_names(self@.artists),
    {
        let mut out = String::new();
        let mut index: usize = 0;
        let ghost names = self@.artists;
        while index < self.artists.len()
            invariant
                index <= self.artists@.len(),
                names == artists_view(self.artists@),
                out@ == joined_names(names.take(index as int)),
            decreases self.artists@.len() - index,
        {
            assert(names.take(index as int + 1).drop_last() == names.take(index as int));
            if index != 0 {
                out.append(" / ");
                proof {
                    reveal_strlit(" / ");
                }
            } else {
                assert(names.take(0) == Seq::<ArtistRefView>::empty());
            }
            out.append(self.artists[index].name.as_str());
            index = index + 1;
        }
        assert(names.take(names.len() as int) == names);
        out
    }
}

/// Whether two lists of songs have the same views.
pub fn same_songs(a: &Vec<Song>, b: &Vec<Song>) -> (r: bool)
    ensures
        r == (songs_view(a@) == songs_view(b@)),
{
    if a.len() != b.len() {
        assert(songs_view(a@).len() != songs_view(b@).len());
        return false;
    }
    let mut i: usize = 0;
    while i < a.len()
        invariant
            a@.len() == b@.len(),
            i <= a@.len(),
            forall|j: int| 0 <= j < i ==> #[trigger] a@[j]@ == b@[j]@,
        decreases a@.len() - i,
    {
        if !a[i].same_as(&b[i]) {
            assert(songs_view(a@)[i as int] != songs_view(b@)[i as int]);
            return false;
        }
        i = i + 1;
    }
    assert(songs_view(a@) =~= songs_view(b@));
    true
}

/// A cloud playlist.
#[derive(Clone, Debug, Default, PartialEq, Eq)]
pub struct Playlist {
    pub id: u64,
    pub name: String,
    pub cover_url: String,
    pub track_count: u32,
    pub description: String,
    pub tracks: Vec<Song>,
}

/// A cloud artist page.
#[derive(Clone, Debug, Default, PartialEq, Eq)]
pub struct Artist {
    pub id: u64,
    pub name: String,
    pub cover_url: String,
    pub brief_desc: String,
    pub songs: Vec<Song>,
    pub albums: Vec<AlbumRef>,
}

/// The signed-in account.
#[derive(Clone, Debug, Default, PartialEq, Eq)]
pub struct Profile {
    pub user_id: u64,
    pub nickname: String,
    pub avatar_url: String,
}

/// A stored login: the cookie, the account and when it was saved.
#[derive(Clone, Debug, Default, PartialEq, Eq)]
pub struct Session {
    pub cookie: String,
    pub profile: Profile,
    pub saved_at_ms: u64,
}

/// The progress of a QR-code login.
#[derive(Clone, Copy, Debug, PartialEq, Eq)]
pub enum QrStatus {
    Idle,
    WaitingScan,
    WaitingConfirm,
    Authorized,
    Expired,
    Failed,
}

impl Default for QrStatus {
    fn default() -> (r: QrStatus)
        ensures
            r == QrStatus::Idle,
    {
        QrStatus::Idle
    }
}

/// A QR-code login in progress.
#[derive(Clone, Debug, Default, PartialEq, Eq)]
pub struct QrLogin {
    pub key: String,
    pub url: String,
    pub status: QrStatus,
}

/// The results of one cloud search.
#[derive(Clone, Debug, Default, PartialEq, Eq)]
pub struct SearchResults {
    pub query: String,
    pub songs: Vec<Song>,
    pub artists: Vec<Artist>,
    pub playlists: Vec<Playlist>,
}

} // verus!
