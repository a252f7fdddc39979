//! The playlist cursor that the display follows: a loaded playlist with its
//! played marks, a list of static entries, and the live console as a source.
use crate::interpreter::{TraktorDataProvider, TraktorSyncAction};
use crate::model::{ServerMessage, StateUpdate};
use crate::songinfo::SongInfo;
use vstd::prelude::*;

verus! {

/// Where the shown song comes from.
#[derive(Debug, PartialEq)]
pub enum SongDataSource {
    Blank,
    Traktor,
    Other(SongInfo),
    Static(usize),
    Playlist(usize),
}

impl Clone for SongDataSource {
    fn clone(&self) -> (r: Self)
        ensures
            r == *self,
    {
        match self {
            SongDataSource::Blank => SongDataSource::Blank,
            SongDataSource::Traktor => SongDataSource::Traktor,
            SongDataSource::Other(song) => SongDataSource::Other(song.clone()),
            SongDataSource::Static(i) => SongDataSource::Static(*i),
            SongDataSource::Playlist(i) => SongDataSource::Playlist(*i),
        }
    }
}

/// A request to change the shown song.
#[derive(Debug, Clone, Copy)]
pub enum SongChange {
    Blank,
    Traktor,
    StaticAbsolute(usize),
    PlaylistAbsolute(usize),
    Previous,
    Next,
}

/// An edit of one field of a playlist song.
#[derive(Debug)]
pub enum SongDataEdit {
    Title(String),
    Artist(String),
    Dance(String),
}

pub struct SongDataProvider {
    pub playlist_songs: Vec<SongInfo>,
    pub playlist_played: Vec<bool>,
    pub statics: Vec<SongInfo>,
    pub traktor_provider: TraktorDataProvider,
    pub current: SongDataSource,
    pub next: Option<SongDataSource>,
}

/// The cursor part of the provider: the shown song, the one chosen as next,
/// and the played marks.
pub struct CursorView {
    pub current: SongDataSource,
    pub next: Option<SongDataSource>,
    pub played: Seq<bool>,
}

/// The played marks once the shown song, when it is a playlist song with a
/// mark, is marked as played.
pub open spec fn marked(c: CursorView) -> Seq<bool> {
    match c.current {
        SongDataSource::Playlist(i) => if i < c.played.len() {
            c.played.update(i as int, true)
        } else {
            c.played
        },
        _ => c.played,
    }
}

/// One step forward in a playlist of `len` songs: to the song chosen as
/// next, or else to the following playlist song; none at the last song or
/// away from the playlist. A step marks the song left as played.
pub open spec fn cursor_forward(c: CursorView, len: nat) -> CursorView {
    match c.next {
        Some(n) => CursorView { current: n, next: None, played: marked(c) },
        None => match c.current {
            SongDataSource::Playlist(i) => if len == 0 || i + 1 == len || i == usize::MAX {
                c
            } else {
                CursorView { current: SongDataSource::Playlist((i + 1) as usize), played: marked(c), ..c }
            },
            _ => c,
        },
    }
}

/// One step back in the playlist; none at the first song or away from the
/// playlist. A step marks the song left as played.
pub open spec fn cursor_back(c: CursorView) -> CursorView {
    match c.current {
        SongDataSource::Playlist(i) => if i == 0 {
            c
        } else {
            CursorView { current: SongDataSource::Playlist((i - 1) as usize), played: marked(c), ..c }
        },
        _ => c,
    }
}

/// `n` steps forward.
pub open spec fn cursor_forward_n(c: CursorView, len: nat, n: nat) -> CursorView
    decreases n,
{
    if n == 0 {
        c
    } else {
        cursor_forward(cursor_forward_n(c, len, (n - 1) as nat), len)
    }
}

/// `n` steps back.
pub open spec fn cursor_back_n(c: CursorView, n: nat) -> CursorView
    decreases n,
{
    if n == 0 {
        c
    } else {
        cursor_back(cursor_back_n(c, (n - 1) as nat))
    }
}

/// Showing `n` in a playlist of `len` songs: the shown song is marked as
/// played; a playlist or static position is taken only when the playlist
/// has that position.
pub open spec fn cursor_set(c: CursorView, n: SongDataSource, len: nat) -> CursorView {
    CursorView {
        current: match n {
            SongDataSource::Static(i) => if i < len {
                n
            } else {
                c.current
            },
            SongDataSource::Playlist(i) => if i < len {
                n
            } else {
                c.current
            },
            _ => n,
        },
        played: marked(c),
        ..c
    }
}

/// The cursor after a playlist correction: a number of steps forward or
/// back, or a jump to a position.
pub open spec fn cursor_after_action(c: CursorView, action: TraktorSyncAction, len: nat) -> CursorView {
    match action {
        TraktorSyncAction::Relative(k) => if k >= 0 {
            cursor_forward_n(c, len, k as nat)
        } else {
            cursor_back_n(c, (-k) as nat)
        },
        TraktorSyncAction::PlaylistAbsolute(pos) => cursor_set(c, SongDataSource::Playlist(pos), len),
    }
}

/// A reference to the entry of `v` at `i`, if there is one.
fn get_entry<T>(v: &Vec<T>, i: usize) -> (r: Option<&T>)
    ensures
        r == (if i < v@.len() {
            Some(&v@[i as int])
        } else {
            None
        }),
{
    if i < v.len() {
        Some(&v[i])
    } else {
        None
    }
}

impl Default for SongDataProvider {
    fn default() -> (r: Self)
        ensures
            r.playlist_songs@.len() == 0,
            r.playlist_played@.len() == 0,
            r.statics@.len() == 0,
            r.traktor_provider.is_initial(),
            r.current == SongDataSource::Blank,
            r.next is None,
    {
        SongDataProvider::new()
    }
}

impl SongDataProvider {
    pub open spec fn cursor(self) -> CursorView {
        CursorView { current: self.current, next: self.next, played: self.playlist_played@ }
    }

    /// The provider differs from `old` in its cursor at most.
    pub open spec fn same_but_cursor(self, old: Self) -> bool {
        self == (SongDataProvider {
            playlist_played: self.playlist_played,
            current: self.current,
            next: self.next,
            ..old
        })
    }

    /// Every playlist song has its played mark.
    pub open spec fn wf(self) -> bool {
        self.playlist_played@.len() == self.playlist_songs@.len()
    }

    /// The played marks after the current song, when it is a playlist one
    /// with a mark, was marked as played.
    pub open spec fn played_after_current(self) -> Seq<bool> {
        match self.current {
            SongDataSource::Playlist(i) => if 0 <= i < self.playlist_played@.len() {
                self.playlist_played@.update(i as int, true)
            } else {
                self.playlist_played@
            },
            _ => self.playlist_played@,
        }
    }

    /// Nothing loaded, nothing shown.
    pub fn new() -> (r: Self)
        ensures
            r.playlist_songs@.len() == 0,
            r.playlist_played@.len() == 0,
            r.statics@.len() == 0,
            r.traktor_provider.is_initial(),
            r.current == SongDataSource::Blank,
            r.next is None,
    {
        SongDataProvider {
            playlist_songs: Vec::new(),
            playlist_played: Vec::new(),
            statics: Vec::new(),
            traktor_provider: TraktorDataProvider::new(),
            current: SongDataSource::Blank,
            next: None,
        }
    }

    /// Loads a playlist, none of it played, and shows its first song (or
    /// nothing, when it is empty).
    pub fn set_vec(&mut self, vec: Vec<SongInfo>)
        ensures
            final(self).playlist_songs == vec,
            final(self).playlist_played@ == Seq::new(vec@.len(), |i: int| false),
            final(self).current == (if vec@.len() > 0 {
                SongDataSource::Playlist(0)
            } else {
                SongDataSource::Blank
            }),
            final(self).statics == old(self).statics,
            final(self).traktor_provider == old(self).traktor_provider,
            final(self).next == old(self).next,
    {
        self.playlist_songs = vec;
        self.playlist_played = vec![false; self.playlist_songs.len()];
        if self.playlist_songs.len() > 0 {
            self.current = SongDataSource::Playlist(0);
        } else {
            self.current = SongDataSource::Blank;
        }
        proof {
            assert(self.playlist_played@ =~= Seq::new(vec@.len(), |i: int| false));
        }
    }

    pub fn set_statics(&mut self, vec: Vec<SongInfo>)
        ensures
            *final(self) == (SongDataProvider { statics: vec, ..*old(self) }),
    {
        self.statics = vec;
    }

    /// Marks the current song as played, when it is a playlist song with a
    /// mark.
    fn set_current_as_played(&mut self)
        ensures
            final(self).playlist_played@ == old(self).played_after_current(),
            *final(self) == (SongDataProvider {
                playlist_played: final(self).playlist_played,
                ..*old(self)
            }),
    {
        if let SongDataSource::Playlist(i) = self.current {
            if i < self.playlist_played.len() {
                self.playlist_played.set(i, true);
            }
        }
    }

    /// The shown song.
    pub fn get_current_song_info(&self) -> (r: Option<&SongInfo>)
        ensures
            match self.current {
                SongDataSource::Static(i) => r == (if i < self.statics@.len() {
                    Some(&self.statics@[i as int])
                } else {
                    None
                }),
                SongDataSource::Playlist(i) => r == (if i < self.playlist_songs@.len() {
                    Some(&self.playlist_songs@[i as int])
                } else {
                    None
                }),
                SongDataSource::Other(song) => r == Some(&song),
                SongDataSource::Blank => r is None,
                SongDataSource::Traktor => r == (if self.traktor_provider.spec_is_ready() {
                    match self.traktor_provider.cached_song_info {
                        Some(s) => Some(&s),
                        None => None,
                    }
                } else {
                    None
                }),
            },
    {
        match &self.current {
            SongDataSource::Static(i) => get_entry(&self.statics, *i),
            SongDataSource::Playlist(i) => get_entry(&self.playlist_songs, *i),
            SongDataSource::Other(song) => Some(song),
            SongDataSource::Blank => None,
            SongDataSource::Traktor => self.traktor_provider.get_song_info(),
        }
    }

    /// The song shown next: the one chosen explicitly, or else the playlist
    /// song after the current one (an explicit song stands for itself).
    pub fn get_next_song_info(&self) -> (r: Option<&SongInfo>)
        ensures
            match self.next {
                Some(SongDataSource::Static(i)) => r == (if i < self.statics@.len() {
                    Some(&self.statics@[i as int])
                } else {
                    None
                }),
                Some(SongDataSource::Playlist(i)) => r == (if i < self.playlist_songs@.len() {
                    Some(&self.playlist_songs@[i as int])
                } else {
                    None
                }),
                Some(SongDataSource::Other(song)) => r == Some(&song),
                Some(_) => r is None,
                None => match self.current {
                    SongDataSource::Playlist(i) => r == (if i + 1 < self.playlist_songs@.len() {
                        Some(&self.playlist_songs@[i + 1])
                    } else {
                        None
                    }),
                    SongDataSource::Other(song) => r == Some(&song),
                    _ => r is None,
                },
            },
    {
        if let Some(next) = &self.next {
            return match next {
                SongDataSource::Static(i) => get_entry(&self.statics, *i),
                SongDataSource::Playlist(i) => get_entry(&self.playlist_songs, *i),
                SongDataSource::Other(song) => Some(song),
                SongDataSource::Blank => None,
                SongDataSource::Traktor => None,
            };
        }
        match &self.current {
            SongDataSource::Static(_) => None,
            SongDataSource::Playlist(i) => if *i < self.playlist_songs.len() {
                get_entry(&self.playlist_songs, *i + 1)
            } else {
                None
            },
            SongDataSource::Other(song) => Some(song),
            SongDataSource::Blank => None,
            SongDataSource::Traktor => None,
        }
    }

    /// Steps back one playlist song, marking the current one as played; does
    /// nothing at the first song or away from the playlist.
    pub fn prev(&mut self)
        ensures
            final(self).cursor() == cursor_back(old(self).cursor()),
            final(self).same_but_cursor(*old(self)),
    {
        let current_index = match self.current {
            SongDataSource::Playlist(i) => i,
            _ => {
                return;
            },
        };
        if current_index == 0 {
            return;
        }
        self.set_current_as_played();
        self.current = SongDataSource::Playlist(current_index - 1);
    }

    /// Moves on to the song chosen as next, or else one playlist song
    /// forward; marks the current song as played when it moves. Does nothing
    /// at the last playlist song or away from the playlist.
    pub fn next(&mut self)
        ensures
            final(self).cursor() == cursor_forward(old(self).cursor(), old(self).playlist_songs@.len()),
            final(self).same_but_cursor(*old(self)),
    {
        if let Some(next) = self.next.take() {
            self.set_current_as_played();
            self.current = next;
            return;
        }
        let current_index = match self.current {
            SongDataSource::Playlist(i) => i,
            _ => {
                return;
            },
        };
        if self.playlist_songs.len() == 0 || current_index == self.playlist_songs.len() - 1
            || current_index == usize::MAX {
            return;
        }
        self.set_current_as_played();
        self.current = SongDataSource::Playlist(current_index + 1);
    }

    /// Shows `n` after marking the current song as played; a playlist or
    /// static position is taken only when the playlist has that position.
    pub fn set_current(&mut self, n: SongDataSource)
        ensures
            final(self).cursor() == cursor_set(old(self).cursor(), n, old(self).playlist_songs@.len()),
            final(self).same_but_cursor(*old(self)),
    {
        self.set_current_as_played();
        match n {
            SongDataSource::Static(i) => {
                if i < self.playlist_songs.len() {
                    self.current = n;
                }
            },
            SongDataSource::Playlist(i) => {
                if i < self.playlist_songs.len() {
                    self.current = n;
                }
            },
            _ => self.current = n,
        }
    }

    pub fn set_next(&mut self, next: SongDataSource)
        ensures
            *final(self) == (SongDataProvider { next: Some(next), ..*old(self) }),
    {
        self.next = Some(next);
    }

    /// Adds a song, not yet played, at the end of the playlist.
    pub fn append_song(&mut self, song: SongInfo)
        ensures
            final(self).playlist_songs@ == old(self).playlist_songs@.push(song),
            final(self).playlist_played@ == old(self).playlist_played@.push(false),
            *final(self) == (SongDataProvider {
                playlist_songs: final(self).playlist_songs,
                playlist_played: final(self).playlist_played,
                ..*old(self)
            }),
    {
        self.playlist_songs.push(song);
        self.playlist_played.push(false);
    }

    /// Removes a playlist song with its mark, or a static entry.
    pub fn delete_song(&mut self, song: SongDataSource)
        requires
            old(self).wf(),
            song matches SongDataSource::Playlist(i) ==> i < old(self).playlist_songs@.len(),
            song matches SongDataSource::Static(i) ==> i < old(self).statics@.len(),
        ensures
            final(self).wf(),
            match song {
                SongDataSource::Playlist(i) => {
                    &&& final(self).playlist_songs@ == old(self).playlist_songs@.remove(i as int)
                    &&& final(self).playlist_played@ == old(self).playlist_played@.remove(i as int)
                    &&& *final(self) == (SongDataProvider {
                        playlist_songs: final(self).playlist_songs,
                        playlist_played: final(self).playlist_played,
                        ..*old(self)
                    })
                },
                SongDataSource::Static(i) => {
                    &&& final(self).statics@ == old(self).statics@.remove(i as int)
                    &&& *final(self) == (SongDataProvider {
                        statics: final(self).statics,
                        ..*old(self)
                    })
                },
                _ => *final(self) == *old(self),
            },
    {
        match song {
            SongDataSource::Playlist(i) => {
                self.playlist_songs.remove(i);
                self.playlist_played.remove(i);
            },
            SongDataSource::Static(i) => {
                self.statics.remove(i);
            },
            _ => {},
        }
    }

    /// Carries out a requested change of the shown song.
    pub fn handle_song_change(&mut self, change: SongChange)
        ensures
            final(self).cursor() == match change {
                SongChange::Previous => cursor_back(old(self).cursor()),
                SongChange::Next => cursor_forward(old(self).cursor(), old(self).playlist_songs@.len()),
                _ => CursorView {
                    current: match change {
                        SongChange::Blank => SongDataSource::Blank,
                        SongChange::Traktor => SongDataSource::Traktor,
                        SongChange::StaticAbsolute(i) => SongDataSource::Static(i),
                        SongChange::PlaylistAbsolute(i) => SongDataSource::Playlist(i),
                        _ => old(self).current,
                    },
                    played: marked(old(self).cursor()),
                    ..old(self).cursor()
                },
            },
            final(self).same_but_cursor(*old(self)),
    {
        match change {
            SongChange::Blank => {
                self.set_current_as_played();
                self.current = SongDataSource::Blank;
            },
            SongChange::Traktor => {
                self.set_current_as_played();
                self.current = SongDataSource::Traktor;
            },
            SongChange::StaticAbsolute(index) => {
                self.set_current_as_played();
                self.current = SongDataSource::Static(index);
            },
            SongChange::PlaylistAbsolute(index) => {
                self.set_current_as_played();
                self.current = SongDataSource::Playlist(index);
            },
            SongChange::Previous => {
                self.prev();
            },
            SongChange::Next => {
                self.next();
            },
        }
    }

    /// Edits one field of the playlist song at `i`, when there is one.
    pub fn handle_song_data_edit(&mut self, i: usize, edit: SongDataEdit)
        ensures
            i >= old(self).playlist_songs@.len() ==> *final(self) == *old(self),
            i < old(self).playlist_songs@.len() ==> {
                let old_song = old(self).playlist_songs@[i as int];
                &&& final(self).playlist_songs@ == old(self).playlist_songs@.update(
                    i as int,
                    match edit {
                        SongDataEdit::Title(t) => SongInfo { title: t, ..old_song },
                        SongDataEdit::Artist(a) => SongInfo { artist: a, ..old_song },
                        SongDataEdit::Dance(d) => SongInfo { dance: d, ..old_song },
                    },
                )
                &&& *final(self) == (SongDataProvider {
                    playlist_songs: final(self).playlist_songs,
                    ..*old(self)
                })
            },
    {
        if i < self.playlist_songs.len() {
            let mut song = self.playlist_songs.remove(i);
            match edit {
                SongDataEdit::Title(title) => {
                    song.title = title;
                },
                SongDataEdit::Artist(artist) => {
                    song.artist = artist;
                },
                SongDataEdit::Dance(dance) => {
                    song.dance = dance;
                },
            }
            self.playlist_songs.insert(i, song);
            proof {
                assert(self.playlist_songs@ =~= old(self).playlist_songs@.update(i as int, song));
            }
        }
    }

    /// Hands the pending correction of the console interpreter to the
    /// cursor: that many steps forward or back, or a jump to a playlist
    /// position.
    pub fn run_traktor_sync_action(&mut self)
        ensures
            final(self).cursor() == cursor_after_action(
                old(self).cursor(),
                old(self).traktor_provider.cached_sync_action,
                old(self).playlist_songs@.len(),
            ),
            final(self).traktor_provider == (TraktorDataProvider {
                cached_sync_action: TraktorSyncAction::Relative(0),
                ..old(self).traktor_provider
            }),
            *final(self) == (SongDataProvider {
                playlist_played: final(self).playlist_played,
                current: final(self).current,
                next: final(self).next,
                traktor_provider: final(self).traktor_provider,
                ..*old(self)
            }),
    {
        let action = self.traktor_provider.take_sync_action();
        let ghost start = self.cursor();
        let ghost len = self.playlist_songs@.len();
        let ghost before = *self;
        match action {
            TraktorSyncAction::Relative(offset) => {
                let mut k: isize = offset;
                if offset >= 0 {
                    while k > 0
                        invariant
                            0 <= k <= offset,
                            self.cursor() == cursor_forward_n(start, len, (offset - k) as nat),
                            self.same_but_cursor(before),
                            len == self.playlist_songs@.len(),
                        decreases k,
                    {
                        self.next();
                        k = k - 1;
                    }
                } else {
                    while k < 0
                        invariant
                            offset <= k <= 0,
                            self.cursor() == cursor_back_n(start, (k - offset) as nat),
                            self.same_but_cursor(before),
                        decreases -k,
                    {
                        self.prev();
                        k = k + 1;
                    }
                }
            },
            TraktorSyncAction::PlaylistAbsolute(pos) => {
                self.set_current(SongDataSource::Playlist(pos));
            },
        }
    }

    /// Replays the current mixer state through the console interpreter, so
    /// that a changed prediction or sync mode takes effect at once, and
    /// hands the resulting correction to the cursor. Nothing happens while
    /// no console state is known.
    pub fn traktor_provider_force_update(&mut self)
        ensures
            match old(self).traktor_provider.state {
                None => *final(self) == *old(self),
                Some(s) => {
                    let refreshed = old(self).traktor_provider.after_message(
                        ServerMessage::Update(StateUpdate::Mixer(s.mixer)),
                        old(self).playlist_songs@,
                    );
                    &&& final(self).cursor() == cursor_after_action(
                        old(self).cursor(),
                        refreshed.cached_sync_action,
                        old(self).playlist_songs@.len(),
                    )
                    &&& final(self).traktor_provider == (TraktorDataProvider {
                        cached_sync_action: TraktorSyncAction::Relative(0),
                        ..refreshed
                    })
                    &&& *final(self) == (SongDataProvider {
                        playlist_played: final(self).playlist_played,
                        current: final(self).current,
                        next: final(self).next,
                        traktor_provider: final(self).traktor_provider,
                        ..*old(self)
                    })
                },
            },
    {
        let mixer = match &self.traktor_provider.state {
            Some(state) => state.mixer,
            None => {
                return;
            },
        };
        self.traktor_provider.process_message(
            ServerMessage::Update(StateUpdate::Mixer(mixer)),
            self.playlist_songs.as_slice(),
        );
        self.run_traktor_sync_action();
    }
}

} // verus!
