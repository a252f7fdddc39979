use vstd::prelude::*;

verus! {

/// What the display shows of a song.
#[derive(Debug, PartialEq)]
pub struct SongInfo {
    pub track_number: u32,
    pub title: String,
    pub artist: String,
    pub dance: String,
    pub album_art: Option<bytes::Bytes>,
}

impl Clone for SongInfo {
    fn clone(&self) -> (r: Self)
        ensures
            r == *self,
    {
        let album_art = match &self.album_art {
            Some(a) => Some(a.clone()),
            None => None,
        };
        SongInfo {
            track_number: self.track_number,
            title: self.title.clone(),
            artist: self.artist.clone(),
            dance: self.dance.clone(),
            album_art,
        }
    }
}

impl Default for SongInfo {
    fn default() -> (r: Self)
        ensures
            r.track_number == 0,
            r.title@.len() == 0,
            r.artist@.len() == 0,
            r.dance@.len() == 0,
            r.album_art is None,
    {
        SongInfo {
            track_number: 0,
            title: String::new(),
            artist: String::new(),
            dance: String::new(),
            album_art: None,
        }
    }
}

impl SongInfo {
    /// A song known only by its dance.
    pub fn with_dance(dance: String) -> (r: Self)
        ensures
            r.track_number == 0,
            r.title@.len() == 0,
            r.artist@.len() == 0,
            r.dance == dance,
            r.album_art is None,
    {
        SongInfo {
            track_number: 0,
            title: String::new(),
            artist: String::new(),
            dance,
            album_art: None,
        }
    }

    pub fn new(
        track_number: u32,
        title: String,
        artist: String,
        dance: String,
        album_art: Option<bytes::Bytes>,
    ) -> (r: Self)
        ensures
            r == (SongInfo { track_number, title, artist, dance, album_art }),
    {
        SongInfo { track_number, title, artist, dance, album_art }
    }
}

/// Two songs are taken for the same one when artist and title agree.
pub open spec fn same_name(a: SongInfo, b: SongInfo) -> bool {
    a.artist@ == b.artist@ && a.title@ == b.title@
}

/// The first playlist position, from `i` on, of a song with the given
/// artist and title.
pub open spec fn song_by_name_from(
    playlist: Seq<SongInfo>,
    artist: Seq<char>,
    title: Seq<char>,
    i: int,
) -> Option<int>
    decreases playlist.len() - i,
{
    if i < 0 || i >= playlist.len() {
        None
    } else if playlist[i].artist@ == artist && playlist[i].title@ == title {
        Some(i)
    } else {
        song_by_name_from(playlist, artist, title, i + 1)
    }
}

/// The first playlist position of a song with the given artist and title.
pub open spec fn song_by_name(playlist: Seq<SongInfo>, artist: Seq<char>, title: Seq<char>) -> Option<int> {
    song_by_name_from(playlist, artist, title, 0)
}

/// The first playlist position, from `i` on, of a song with track number `n`.
pub open spec fn song_by_number_from(playlist: Seq<SongInfo>, n: u32, i: int) -> Option<int>
    decreases playlist.len() - i,
{
    if i < 0 || i >= playlist.len() {
        None
    } else if playlist[i].track_number == n {
        Some(i)
    } else {
        song_by_number_from(playlist, n, i + 1)
    }
}

/// The first playlist position of a song with track number `n`.
pub open spec fn song_by_number(playlist: Seq<SongInfo>, n: u32) -> Option<int> {
    song_by_number_from(playlist, n, 0)
}

/// Looks up the first song with the given artist and title.
pub fn find_song_by_name(playlist: &[SongInfo], artist: &String, title: &String) -> (r: Option<usize>)
    ensures
        r matches Some(i) ==> i < playlist@.len() && song_by_name(playlist@, artist@, title@) == Some(
            i as int,
        ),
        r is None ==> song_by_name(playlist@, artist@, title@) is None,
{
    let mut i: usize = 0;
    while i < playlist.len()
        invariant
            i <= playlist@.len(),
            song_by_name(playlist@, artist@, title@) == song_by_name_from(playlist@, artist@, title@, i as int),
        decreases playlist@.len() - i,
    {
        if playlist[i].artist == *artist && playlist[i].title == *title {
            return Some(i);
        }
        i = i + 1;
    }
    None
}

/// Looks up the first song with track number `n`.
pub fn find_song_by_number(playlist: &[SongInfo], n: u32) -> (r: Option<usize>)
    ensures
        r matches Some(i) ==> i < playlist@.len() && song_by_number(playlist@, n) == Some(i as int),
        r is None ==> song_by_number(playlist@, n) is None,
{
    let mut i: usize = 0;
    while i < playlist.len()
        invariant
            i <= playlist@.len(),
            song_by_number(playlist@, n) == song_by_number_from(playlist@, n, i as int),
        decreases playlist@.len() - i,
    {
        if playlist[i].track_number == n {
            return Some(i);
        }
        i = i + 1;
    }
    None
}

/// `song_by_number_from` finds the first position from `i` on whose track
/// number is `n`, and nothing when there is none.
pub proof fn lemma_song_by_number_from(playlist: Seq<SongInfo>, n: u32, i: int)
    requires
        0 <= i,
    ensures
        song_by_number_from(playlist, n, i) matches Some(k) ==> {
            &&& i <= k < playlist.len()
            &&& playlist[k].track_number == n
            &&& forall|j: int| i <= j < k ==> #[trigger] playlist[j].track_number != n
        },
        song_by_number_from(playlist, n, i) is None ==> forall|j: int|
            i <= j < playlist.len() ==> #[trigger] playlist[j].track_number != n,
    decreases playlist.len() - i,
{
    if i < playlist.len() && playlist[i].track_number != n {
        lemma_song_by_number_from(playlist, n, i + 1);
    }
}

} // verus!
