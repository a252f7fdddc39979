//! The console interpreter: which deck is heard, what plays next, and how a
//! separately kept playlist cursor should follow the mix.
use crate::model::{
    AppMessage, ChannelState, DeckContentState, DeckState, MixerState, ServerMessage, State,
    StateUpdate, FULL,
};
use crate::paths::{contains_path, distinct_nonempty, distinct_paths, has_path};
use crate::songinfo::{
    find_song_by_name, find_song_by_number, lemma_song_by_number_from, song_by_name, song_by_number,
    SongInfo,
};
use vstd::prelude::*;

verus! {

/// The crossfader midpoint, in millionths.
pub const X_FADER_CENTER: i32 = 500_000;

/// Below this crossfader value the remembered side becomes the left one.
pub const X_FADER_LEFT_BELOW: i32 = 200_000;

/// Above this crossfader value the remembered side becomes the right one.
pub const X_FADER_RIGHT_ABOVE: i32 = 800_000;

/// The address the server listens on when none was submitted.
pub const TRAKTOR_SERVER_DEFAULT_ADDR: &'static str = "127.0.0.1:8080";

/// How the next song is predicted.
#[derive(Debug, Copy, Clone, PartialEq, Eq, Structural)]
pub enum TraktorNextMode {
    DeckByPosition,
    DeckByNumber,
    PlaylistByNumber,
    PlaylistByName,
}

/// How playlist corrections are derived.
#[derive(Debug, Copy, Clone, PartialEq, Eq, Structural)]
pub enum TraktorSyncMode {
    Relative,
    AbsoluteByNumber,
    AbsoluteByName,
}

/// A pending correction of the playlist cursor: a number of steps forward
/// (or backward, when negative), or a jump to a playlist position.
#[derive(Debug, Copy, Clone, PartialEq, Eq, Structural)]
pub enum TraktorSyncAction {
    Relative(isize),
    PlaylistAbsolute(usize),
}

/// How audible a deck is, in millionths: 0 when nothing plays on it, a
/// falling value as the crossfader moves away from its side, `FULL` otherwise.
pub open spec fn deck_score(deck: DeckState, channel: ChannelState, mixer: MixerState) -> int {
    if !deck.content.is_loaded || deck.play_state.speed == 0 || channel.volume == 0 {
        0
    } else if channel.x_fader_left && mixer.x_fader > X_FADER_CENTER {
        (FULL - mixer.x_fader) * 2
    } else if channel.x_fader_right && mixer.x_fader < X_FADER_CENTER {
        mixer.x_fader * 2
    } else {
        FULL as int
    }
}

/// The score of the deck at position `i`.
pub open spec fn score_at(s: State, i: int) -> int {
    deck_score(s.deck(i), s.channel(i), s.mixer)
}

pub open spec fn max_int(a: int, b: int) -> int {
    if a >= b { a } else { b }
}

/// The deck that is heard: the lowest position whose score is the maximum of
/// the four, when that maximum is positive.
pub open spec fn current_deck(s: State) -> Option<int> {
    let m = max_int(max_int(score_at(s, 0), score_at(s, 1)), max_int(score_at(s, 2), score_at(s, 3)));
    if m <= 0 {
        None
    } else if score_at(s, 0) == m {
        Some(0)
    } else if score_at(s, 1) == m {
        Some(1)
    } else if score_at(s, 2) == m {
        Some(2)
    } else {
        Some(3)
    }
}

/// Scores one deck with its channel under the given mixer.
pub fn get_deck_score(deck: &DeckState, channel: &ChannelState, mixer: &MixerState) -> (r: i64)
    ensures
        r as int == deck_score(*deck, *channel, *mixer),
{
    if !deck.content.is_loaded || deck.play_state.speed == 0 || channel.volume == 0 {
        return 0;
    }
    if channel.x_fader_left && mixer.x_fader > X_FADER_CENTER {
        (FULL as i64 - mixer.x_fader as i64) * 2
    } else if channel.x_fader_right && mixer.x_fader < X_FADER_CENTER {
        mixer.x_fader as i64 * 2
    } else {
        FULL as i64
    }
}

/// Picks the deck that is heard, as `current_deck` describes it.
pub fn find_current_deck(state: &State) -> (r: Option<usize>)
    ensures
        r matches Some(i) ==> current_deck(*state) == Some(i as int),
        r is None ==> current_deck(*state) is None,
{
    let scores: [i64; 4] = [
        get_deck_score(&state.decks.0, &state.channels.0, &state.mixer),
        get_deck_score(&state.decks.1, &state.channels.1, &state.mixer),
        get_deck_score(&state.decks.2, &state.channels.2, &state.mixer),
        get_deck_score(&state.decks.3, &state.channels.3, &state.mixer),
    ];
    let mut best: usize = 0;
    let mut i: usize = 1;
    while i < 4
        invariant
            1 <= i <= 4,
            best < i,
            forall|k: int| 0 <= k < 4 ==> scores@[k] as int == #[trigger] score_at(*state, k),
            forall|k: int| 0 <= k < i ==> scores@[k] <= scores@[best as int],
            forall|k: int| 0 <= k < best ==> scores@[k] < scores@[best as int],
        decreases 4 - i,
    {
        if scores[i] > scores[best] {
            best = i;
        }
        i = i + 1;
    }
    proof {
        assert(score_at(*state, 0) == scores@[0]);
        assert(score_at(*state, 1) == scores@[1]);
        assert(score_at(*state, 2) == scores@[2]);
        assert(score_at(*state, 3) == scores@[3]);
    }
    if scores[best] > 0 {
        Some(best)
    } else {
        None
    }
}

/// The deck at position `i`.
pub fn deck_ref(state: &State, i: usize) -> (r: &DeckState)
    requires
        i < 4,
    ensures
        *r == state.deck(i as int),
{
    if i == 0 {
        &state.decks.0
    } else if i == 1 {
        &state.decks.1
    } else if i == 2 {
        &state.decks.2
    } else {
        &state.decks.3
    }
}

/// The channel of the deck at position `i`.
pub fn channel_ref(state: &State, i: usize) -> (r: &ChannelState)
    requires
        i < 4,
    ensures
        *r == state.channel(i as int),
{
    if i == 0 {
        &state.channels.0
    } else if i == 1 {
        &state.channels.1
    } else if i == 2 {
        &state.channels.2
    } else {
        &state.channels.3
    }
}

/// The first deck, from position `i` on, loaded with track number `n`.
pub open spec fn deck_by_number_from(s: State, n: int, i: int) -> Option<int>
    decreases 4 - i,
{
    if i < 0 || i >= 4 {
        None
    } else if s.deck(i).content.number == n {
        Some(i)
    } else {
        deck_by_number_from(s, n, i + 1)
    }
}

/// The first deck loaded with track number `n`.
pub open spec fn deck_by_number(s: State, n: int) -> Option<int> {
    deck_by_number_from(s, n, 0)
}

/// Whether the deck at position `i` sits on the crossfader side opposite to
/// the current one (the left one when `from_left`) and has not yet played
/// half of its track.
pub open spec fn takes_over(s: State, i: int, from_left: bool) -> bool {
    &&& if from_left {
        s.channel(i).x_fader_right
    } else {
        s.channel(i).x_fader_left
    }
    &&& 2 * s.deck(i).play_state.position < s.deck(i).content.track_length
}

/// The first deck, from position `i` on, that takes over from the current side.
pub open spec fn deck_taking_over_from(s: State, from_left: bool, i: int) -> Option<int>
    decreases 4 - i,
{
    if i < 0 || i >= 4 {
        None
    } else if takes_over(s, i, from_left) {
        Some(i)
    } else {
        deck_taking_over_from(s, from_left, i + 1)
    }
}

/// The first deck that takes over from the current side.
pub open spec fn deck_taking_over(s: State, from_left: bool) -> Option<int> {
    deck_taking_over_from(s, from_left, 0)
}

/// The art stored, from position `i` on, for the file at `path`.
pub open spec fn cover_from(covers: Seq<(String, bytes::Bytes)>, path: Seq<char>, i: int) -> Option<
    bytes::Bytes,
>
    decreases covers.len() - i,
{
    if i < 0 || i >= covers.len() {
        None
    } else if covers[i].0@ == path {
        Some(covers[i].1)
    } else {
        cover_from(covers, path, i + 1)
    }
}

/// The art stored for the file at `path`.
pub open spec fn cover_for(covers: Seq<(String, bytes::Bytes)>, path: Seq<char>) -> Option<bytes::Bytes> {
    cover_from(covers, path, 0)
}

/// The song a deck holds: its number, title and artist, its genre as the
/// dance, and the art stored for its file or else that of the first playlist
/// song with the same artist and title.
pub open spec fn song_from_deck(
    content: DeckContentState,
    covers: Seq<(String, bytes::Bytes)>,
    playlist: Seq<SongInfo>,
) -> SongInfo {
    SongInfo {
        track_number: content.number,
        title: content.title,
        artist: content.artist,
        dance: content.genre,
        album_art: match cover_for(covers, content.file_path@) {
            Some(art) => Some(art),
            None => match song_by_name(playlist, content.artist@, content.title@) {
                Some(i) => playlist[i].album_art,
                None => None,
            },
        },
    }
}

/// The playlist song after position `pos`, if there is one.
pub open spec fn following(playlist: Seq<SongInfo>, pos: Option<int>) -> Option<SongInfo> {
    match pos {
        Some(i) => if playlist.len() - i > 1 {
            Some(playlist[i + 1])
        } else {
            None
        },
        None => None,
    }
}

/// The next song under one prediction mode, given the console, the current
/// song and the channel it plays on.
pub open spec fn next_with_mode(
    mode: TraktorNextMode,
    s: State,
    current: SongInfo,
    channel: ChannelState,
    covers: Seq<(String, bytes::Bytes)>,
    playlist: Seq<SongInfo>,
) -> Option<SongInfo> {
    match mode {
        TraktorNextMode::DeckByPosition => if !channel.x_fader_left && !channel.x_fader_right {
            None
        } else {
            match deck_taking_over(s, channel.x_fader_left) {
                Some(i) => Some(song_from_deck(s.deck(i).content, covers, playlist)),
                None => None,
            }
        },
        TraktorNextMode::DeckByNumber => match deck_by_number(s, current.track_number + 1) {
            Some(i) => Some(song_from_deck(s.deck(i).content, covers, playlist)),
            None => None,
        },
        TraktorNextMode::PlaylistByNumber => following(
            playlist,
            song_by_number(playlist, current.track_number),
        ),
        TraktorNextMode::PlaylistByName => following(
            playlist,
            song_by_name(playlist, current.artist@, current.title@),
        ),
    }
}

/// The next song: the primary mode's answer, or else the fallback's.
pub open spec fn next_song(
    primary: Option<TraktorNextMode>,
    fallback: Option<TraktorNextMode>,
    s: State,
    current: SongInfo,
    channel: ChannelState,
    covers: Seq<(String, bytes::Bytes)>,
    playlist: Seq<SongInfo>,
) -> Option<SongInfo> {
    let first = match primary {
        Some(m) => next_with_mode(m, s, current, channel, covers, playlist),
        None => None,
    };
    if first is Some {
        first
    } else {
        match fallback {
            Some(m) => next_with_mode(m, s, current, channel, covers, playlist),
            None => None,
        }
    }
}

/// The pending correction once the current song is known: an absolute mode
/// points at the first playlist song that matches, or clears the correction
/// when none does; other modes leave it as it was.
pub open spec fn sync_after_refresh(
    mode: Option<TraktorSyncMode>,
    current: SongInfo,
    playlist: Seq<SongInfo>,
    pending: TraktorSyncAction,
) -> TraktorSyncAction {
    match mode {
        Some(TraktorSyncMode::AbsoluteByNumber) => match song_by_number(playlist, current.track_number) {
            Some(i) => TraktorSyncAction::PlaylistAbsolute(i as usize),
            None => TraktorSyncAction::Relative(0),
        },
        Some(TraktorSyncMode::AbsoluteByName) => match song_by_name(
            playlist,
            current.artist@,
            current.title@,
        ) {
            Some(i) => TraktorSyncAction::PlaylistAbsolute(i as usize),
            None => TraktorSyncAction::Relative(0),
        },
        _ => pending,
    }
}

/// Finds the art stored for the file at `path`.
fn find_cover(covers: &Vec<(String, bytes::Bytes)>, path: &String) -> (r: Option<bytes::Bytes>)
    ensures
        r == cover_for(covers@, path@),
{
    let mut i: usize = 0;
    while i < covers.len()
        invariant
            i <= covers@.len(),
            cover_for(covers@, path@) == cover_from(covers@, path@, i as int),
        decreases covers@.len() - i,
    {
        if covers[i].0 == *path {
            return Some(covers[i].1.clone());
        }
        i = i + 1;
    }
    None
}

/// Builds the song a deck holds, as `song_from_deck` describes it.
fn copy_song_info_from_deck(
    covers: &Vec<(String, bytes::Bytes)>,
    content: &DeckContentState,
    playlist: &[SongInfo],
) -> (r: SongInfo)
    ensures
        r == song_from_deck(*content, covers@, playlist@),
{
    let album_art = match find_cover(covers, &content.file_path) {
        Some(art) => Some(art),
        None => match find_song_by_name(playlist, &content.artist, &content.title) {
            Some(i) => match &playlist[i].album_art {
                Some(art) => Some(art.clone()),
                None => None,
            },
            None => None,
        },
    };
    SongInfo::new(
        content.number,
        content.title.clone(),
        content.artist.clone(),
        content.genre.clone(),
        album_art,
    )
}

/// The song after a playlist position.
fn song_following(playlist: &[SongInfo], pos: Option<usize>) -> (r: Option<SongInfo>)
    requires
        pos matches Some(i) ==> i < playlist@.len(),
    ensures
        r == following(playlist@, match pos {
            Some(i) => Some(i as int),
            None => None,
        }),
{
    match pos {
        Some(i) => if playlist.len() - i > 1 {
            Some(playlist[i + 1].clone())
        } else {
            None
        },
        None => None,
    }
}

/// The next song under one prediction mode, as `next_with_mode` describes it.
#[verifier::loop_isolation(false)]
fn try_get_next_with_mode(
    mode: Option<TraktorNextMode>,
    state: &State,
    current: &SongInfo,
    current_channel: &ChannelState,
    covers: &Vec<(String, bytes::Bytes)>,
    playlist: &[SongInfo],
) -> (r: Option<SongInfo>)
    ensures
        r == match mode {
            Some(m) => next_with_mode(m, *state, *current, *current_channel, covers@, playlist@),
            None => None,
        },
{
    let Some(mode) = mode else {
        return None;
    };
    match mode {
        TraktorNextMode::DeckByPosition => {
            let is_on_left = if current_channel.x_fader_left {
                true
            } else if current_channel.x_fader_right {
                false
            } else {
                return None;
            };
            let mut i: usize = 0;
            while i < 4
                invariant
                    i <= 4,
                    deck_taking_over(*state, is_on_left) == deck_taking_over_from(
                        *state,
                        is_on_left,
                        i as int,
                    ),
                decreases 4 - i,
            {
                let channel = channel_ref(state, i);
                let deck = deck_ref(state, i);
                let on_other_side = if is_on_left {
                    channel.x_fader_right
                } else {
                    channel.x_fader_left
                };
                if on_other_side && (deck.play_state.position as i128) * 2
                    < deck.content.track_length as i128 {
                    return Some(copy_song_info_from_deck(covers, &deck.content, playlist));
                }
                i = i + 1;
            }
            None
        },
        TraktorNextMode::DeckByNumber => {
            let wanted: u64 = current.track_number as u64 + 1;
            let mut i: usize = 0;
            while i < 4
                invariant
                    i <= 4,
                    wanted == current.track_number + 1,
                    deck_by_number(*state, wanted as int) == deck_by_number_from(
                        *state,
                        wanted as int,
                        i as int,
                    ),
                decreases 4 - i,
            {
                let deck = deck_ref(state, i);
                if deck.content.number as u64 == wanted {
                    return Some(copy_song_info_from_deck(covers, &deck.content, playlist));
                }
                i = i + 1;
            }
            None
        },
        TraktorNextMode::PlaylistByNumber => {
            let pos = find_song_by_number(playlist, current.track_number);
            song_following(playlist, pos)
        },
        TraktorNextMode::PlaylistByName => {
            let pos = find_song_by_name(playlist, &current.artist, &current.title);
            song_following(playlist, pos)
        },
    }
}

/// The crossfader move from `old_x` to `new_x` counted against the
/// remembered side: crossing the midpoint downwards counts -1 while the left
/// side is remembered and +1 while the right one is; crossing upwards counts
/// the other way; no crossing counts 0.
pub open spec fn crossing_offset(old_x: int, new_x: int, is_left: bool) -> int {
    if old_x > X_FADER_CENTER && new_x <= X_FADER_CENTER {
        if is_left { -1 } else { 1 }
    } else if old_x <= X_FADER_CENTER && new_x > X_FADER_CENTER {
        if is_left { 1 } else { -1 }
    } else {
        0
    }
}

/// The remembered crossfader side after the crossfader moved to `new_x`:
/// left below the lower threshold, right above the upper one, unchanged
/// between them.
pub open spec fn side_after(is_left: bool, new_x: int) -> bool {
    if new_x < X_FADER_LEFT_BELOW {
        true
    } else if new_x > X_FADER_RIGHT_ABOVE {
        false
    } else {
        is_left
    }
}

/// `v` held within the range of `isize`.
pub open spec fn clamp_isize(v: int) -> int {
    if v > isize::MAX {
        isize::MAX as int
    } else if v < isize::MIN {
        isize::MIN as int
    } else {
        v
    }
}

/// A relative step added to the pending correction: it accumulates onto a
/// relative one and replaces an absolute one.
pub open spec fn accumulate(pending: TraktorSyncAction, offset: int) -> TraktorSyncAction {
    match pending {
        TraktorSyncAction::Relative(n) => TraktorSyncAction::Relative(clamp_isize(n + offset) as isize),
        TraktorSyncAction::PlaylistAbsolute(_) => TraktorSyncAction::Relative(offset as isize),
    }
}

/// The files loaded on the four decks, distinct and non-empty.
pub open spec fn loaded_files(state: Option<State>) -> Seq<String> {
    match state {
        Some(s) => distinct_paths(
            seq![
                s.decks.0.content.file_path,
                s.decks.1.content.file_path,
                s.decks.2.content.file_path,
                s.decks.3.content.file_path,
            ],
        ),
        None => Seq::empty(),
    }
}

/// The stored art that survives a new image for `path`: entries for other
/// files that are still loaded, in order.
pub open spec fn covers_kept(
    covers: Seq<(String, bytes::Bytes)>,
    path: Seq<char>,
    loaded: Seq<String>,
) -> Seq<(String, bytes::Bytes)>
    decreases covers.len(),
{
    if covers.len() == 0 {
        Seq::empty()
    } else {
        let rest = covers_kept(covers.drop_last(), path, loaded);
        let c = covers.last();
        if c.0@ != path && has_path(loaded, c.0@) {
            rest.push(c)
        } else {
            rest
        }
    }
}

/// The stored art after an image for `path` arrived: it replaces what was
/// stored for that file, and only art of loaded files is kept.
pub open spec fn covers_after_image(
    covers: Seq<(String, bytes::Bytes)>,
    path: String,
    data: bytes::Bytes,
    loaded: Seq<String>,
) -> Seq<(String, bytes::Bytes)> {
    let kept = covers_kept(covers, path@, loaded);
    if has_path(loaded, path@) {
        kept.push((path, data))
    } else {
        kept
    }
}

/// No two entries of the stored art are for the same file.
pub open spec fn covers_distinct(covers: Seq<(String, bytes::Bytes)>) -> bool {
    forall|i: int, j: int|
        0 <= i < j < covers.len() ==> #[trigger] covers[i].0@ != #[trigger] covers[j].0@
}

/// The art kept for other files holds distinct files none of which is
/// `path`, each one stored before.
proof fn lemma_covers_kept(
    covers: Seq<(String, bytes::Bytes)>,
    path: Seq<char>,
    loaded: Seq<String>,
)
    requires
        covers_distinct(covers),
    ensures
        covers_distinct(covers_kept(covers, path, loaded)),
        forall|k: int|
            0 <= k < covers_kept(covers, path, loaded).len() ==> {
                &&& #[trigger] covers_kept(covers, path, loaded)[k].0@ != path
                &&& exists|i: int|
                    0 <= i < covers.len() && #[trigger] covers[i].0@ == covers_kept(
                        covers,
                        path,
                        loaded,
                    )[k].0@
            },
    decreases covers.len(),
{
    if covers.len() > 0 {
        let rest = covers.drop_last();
        assert(covers_distinct(rest)) by {
            assert forall|i: int, j: int| 0 <= i < j < rest.len() implies #[trigger] rest[i].0@
                != #[trigger] rest[j].0@ by {
                assert(rest[i] == covers[i] && rest[j] == covers[j]);
            }
        }
        lemma_covers_kept(rest, path, loaded);
        let kept = covers_kept(rest, path, loaded);
        let c = covers.last();
        assert forall|k: int| 0 <= k < kept.len() implies #[trigger] kept[k].0@ != c.0@ by {
            let i = choose|i: int| 0 <= i < rest.len() && #[trigger] rest[i].0@ == kept[k].0@;
            assert(covers[i] == rest[i]);
            assert(covers[i].0@ != covers[covers.len() - 1].0@);
        }
        assert forall|k: int|
            #![trigger kept[k]]
            0 <= k < kept.len() implies exists|i: int|
                0 <= i < covers.len() && #[trigger] covers[i].0@ == kept[k].0@ by {
            let i = choose|i: int| 0 <= i < rest.len() && #[trigger] rest[i].0@ == kept[k].0@;
            assert(covers[i] == rest[i]);
        }
        if c.0@ != path && has_path(loaded, c.0@) {
            let r = kept.push(c);
            assert(covers[covers.len() - 1].0@ == c.0@);
            assert forall|i: int, j: int| 0 <= i < j < r.len() implies #[trigger] r[i].0@
                != #[trigger] r[j].0@ by {
                if j == r.len() - 1 {
                    assert(r[i] == kept[i]);
                } else {
                    assert(r[i] == kept[i] && r[j] == kept[j]);
                }
            }
            assert forall|k: int| 0 <= k < r.len() implies {
                &&& #[trigger] r[k].0@ != path
                &&& exists|i: int| 0 <= i < covers.len() && #[trigger] covers[i].0@ == r[k].0@
            } by {
                if k < kept.len() {
                    assert(r[k] == kept[k]);
                }
            }
        }
    }
}

/// Storing an image keeps the stored art free of repeated files.
pub proof fn lemma_covers_after_image_distinct(
    covers: Seq<(String, bytes::Bytes)>,
    path: String,
    data: bytes::Bytes,
    loaded: Seq<String>,
)
    requires
        covers_distinct(covers),
    ensures
        covers_distinct(covers_after_image(covers, path, data, loaded)),
{
    lemma_covers_kept(covers, path@, loaded);
    let kept = covers_kept(covers, path@, loaded);
    if has_path(loaded, path@) {
        let r = kept.push((path, data));
        assert forall|i: int, j: int| 0 <= i < j < r.len() implies #[trigger] r[i].0@
            != #[trigger] r[j].0@ by {
            assert(r[i] == kept[i]);
            if j < kept.len() {
                assert(r[j] == kept[j]);
            }
        }
    }
}

/// Interprets the console state that the server reports: keeps it, caches
/// the current and the next song, and derives the pending playlist correction.
pub struct TraktorDataProvider {
    pub is_enabled: bool,
    pub address: String,
    pub submitted_address: String,
    pub next_mode: Option<TraktorNextMode>,
    pub next_mode_fallback: Option<TraktorNextMode>,
    pub sync_mode: Option<TraktorSyncMode>,
    pub channel_open: bool,
    pub time_offset_ms: i64,
    pub state: Option<State>,
    pub covers: Vec<(String, bytes::Bytes)>,
    pub sync_x_fader_is_left: bool,
    pub cached_song_info: Option<SongInfo>,
    pub cached_next_song_info: Option<SongInfo>,
    pub cached_sync_action: TraktorSyncAction,
    pub debug_logging: bool,
    pub log: Vec<String>,
}

impl Default for TraktorDataProvider {
    fn default() -> (r: Self)
        ensures
            r.is_initial(),
            r.wf(),
    {
        TraktorDataProvider::new()
    }
}

impl TraktorDataProvider {
    /// A disabled provider that predicts by deck number, with no sync mode and
    /// nothing received.
    pub open spec fn is_initial(self) -> bool {
        &&& !self.is_enabled
        &&& self.address@.len() == 0
        &&& self.submitted_address@.len() == 0
        &&& self.next_mode == Some(TraktorNextMode::DeckByNumber)
        &&& self.next_mode_fallback is None
        &&& self.sync_mode is None
        &&& !self.channel_open
        &&& self.time_offset_ms == 0
        &&& self.state is None
        &&& self.covers@.len() == 0
        &&& self.sync_x_fader_is_left
        &&& self.cached_song_info is None
        &&& self.cached_next_song_info is None
        &&& self.cached_sync_action == TraktorSyncAction::Relative(0)
        &&& !self.debug_logging
        &&& self.log@.len() == 0
    }

    pub fn new() -> (r: Self)
        ensures
            r.is_initial(),
            r.wf(),
    {
        TraktorDataProvider {
            is_enabled: false,
            address: String::new(),
            submitted_address: String::new(),
            next_mode: Some(TraktorNextMode::DeckByNumber),
            next_mode_fallback: None,
            sync_mode: None,
            channel_open: false,
            time_offset_ms: 0,
            state: None,
            covers: Vec::new(),
            sync_x_fader_is_left: true,
            cached_song_info: None,
            cached_next_song_info: None,
            cached_sync_action: TraktorSyncAction::Relative(0),
            debug_logging: false,
            log: Vec::new(),
        }
    }

    /// The stored art holds each file once.
    pub open spec fn wf(self) -> bool {
        covers_distinct(self.covers@)
    }

    pub open spec fn spec_is_ready(self) -> bool {
        self.is_enabled && self.channel_open
    }

    /// The provider with both song caches recomputed from its state.
    pub open spec fn refreshed(self, playlist: Seq<SongInfo>) -> Self {
        let cleared = TraktorDataProvider {
            cached_song_info: None,
            cached_next_song_info: None,
            ..self
        };
        if !self.spec_is_ready() {
            cleared
        } else {
            match self.state {
                None => cleared,
                Some(s) => match current_deck(s) {
                    None => cleared,
                    Some(i) => {
                        let current = song_from_deck(s.deck(i).content, self.covers@, playlist);
                        TraktorDataProvider {
                            cached_song_info: Some(current),
                            cached_next_song_info: next_song(
                                self.next_mode,
                                self.next_mode_fallback,
                                s,
                                current,
                                s.channel(i),
                                self.covers@,
                                playlist,
                            ),
                            cached_sync_action: sync_after_refresh(
                                self.sync_mode,
                                current,
                                playlist,
                                self.cached_sync_action,
                            ),
                            ..self
                        }
                    },
                },
            }
        }
    }

    /// The provider with `update` applied to its state, and, while it is
    /// ready and syncs relatively, the correction advanced by the crossfader
    /// move the update carries; unchanged while no state is known.
    pub open spec fn with_update(self, update: StateUpdate) -> Self {
        match self.state {
            None => self,
            Some(s) => {
                let synced = match update {
                    StateUpdate::Mixer(m) => if self.sync_mode == Some(TraktorSyncMode::Relative)
                        && self.spec_is_ready() {
                        TraktorDataProvider {
                            sync_x_fader_is_left: side_after(
                                self.sync_x_fader_is_left,
                                m.x_fader as int,
                            ),
                            cached_sync_action: accumulate(
                                self.cached_sync_action,
                                crossing_offset(
                                    s.mixer.x_fader as int,
                                    m.x_fader as int,
                                    self.sync_x_fader_is_left,
                                ),
                            ),
                            ..self
                        }
                    } else {
                        self
                    },
                    _ => self,
                };
                TraktorDataProvider { state: Some(s.spec_apply(update)), ..synced }
            },
        }
    }

    /// The provider after a reconnect: no state, no songs, the left side
    /// remembered.
    pub open spec fn reset(self) -> Self {
        TraktorDataProvider {
            time_offset_ms: 0,
            state: None,
            sync_x_fader_is_left: true,
            cached_song_info: None,
            cached_next_song_info: None,
            ..self
        }
    }

    pub fn is_ready(&self) -> (r: bool)
        ensures
            r == self.spec_is_ready(),
    {
        self.is_enabled && self.channel_open
    }

    pub fn get_log(&self) -> (r: &[String])
        ensures
            r@ == self.log@,
    {
        self.log.as_slice()
    }

    pub fn clear_log(&mut self)
        ensures
            final(self).log@.len() == 0,
            *final(self) == (TraktorDataProvider { log: final(self).log, ..*old(self) }),
    {
        self.log.clear();
    }

    /// The command channel to the server was found closed.
    pub fn channel_closed(&mut self)
        ensures
            *final(self) == (TraktorDataProvider { channel_open: false, ..*old(self) }),
    {
        self.channel_open = false;
    }

    /// Forgets the session and asks the server for a new one: the command to
    /// send is returned while the command channel is open.
    pub fn reconnect(&mut self) -> (r: Option<AppMessage>)
        ensures
            *final(self) == old(self).reset(),
            r == (if old(self).channel_open {
                Some(AppMessage::Reconnect { debug_logging: old(self).debug_logging })
            } else {
                None
            }),
    {
        self.time_offset_ms = 0;
        self.state = None;
        self.sync_x_fader_is_left = true;
        self.update_song_info(&[]);
        self.send_message(AppMessage::Reconnect { debug_logging: self.debug_logging })
    }

    fn send_message(&self, message: AppMessage) -> (r: Option<AppMessage>)
        ensures
            r == (if self.channel_open { Some(message) } else { None }),
    {
        if self.channel_open {
            Some(message)
        } else {
            None
        }
    }

    /// The address to listen on, as text: none while disabled, the default
    /// one while no address was submitted.
    pub fn get_socket_addr(&self) -> (r: Option<String>)
        ensures
            !self.is_enabled ==> r is None,
            self.is_enabled && self.submitted_address@.len() == 0 ==> (r matches Some(a) && a@
                == TRAKTOR_SERVER_DEFAULT_ADDR@),
            self.is_enabled && self.submitted_address@.len() > 0 ==> r == Some(
                self.submitted_address,
            ),
    {
        if !self.is_enabled {
            return None;
        }
        if self.submitted_address.as_str().is_empty() {
            return Some(TRAKTOR_SERVER_DEFAULT_ADDR.to_owned());
        }
        Some(self.submitted_address.clone())
    }

    pub fn get_song_info(&self) -> (r: Option<&SongInfo>)
        ensures
            r == (if self.spec_is_ready() {
                match self.cached_song_info {
                    Some(s) => Some(&s),
                    None => None,
                }
            } else {
                None
            }),
    {
        if !self.is_ready() {
            return None;
        }
        self.cached_song_info.as_ref()
    }

    pub fn get_next_song_info(&self) -> (r: Option<&SongInfo>)
        ensures
            r == (if self.spec_is_ready() {
                match self.cached_next_song_info {
                    Some(s) => Some(&s),
                    None => None,
                }
            } else {
                None
            }),
    {
        if !self.is_ready() {
            return None;
        }
        self.cached_next_song_info.as_ref()
    }

    /// The current song, the next one and the pending correction, from the
    /// state and the externally kept playlist.
    fn update_song_info(&mut self, playlist: &[SongInfo])
        ensures
            *final(self) == old(self).refreshed(playlist@),
    {
        self.cached_song_info = None;
        self.cached_next_song_info = None;
        if !self.is_ready() {
            return;
        }
        let (current, next, sync) = match &self.state {
            None => {
                return;
            },
            Some(state) => match find_current_deck(state) {
                None => {
                    return;
                },
                Some(i) => {
                    let content = &deck_ref(state, i).content;
                    let channel = channel_ref(state, i);
                    let current = copy_song_info_from_deck(&self.covers, content, playlist);
                    let next = match try_get_next_with_mode(
                        self.next_mode,
                        state,
                        &current,
                        channel,
                        &self.covers,
                        playlist,
                    ) {
                        Some(n) => Some(n),
                        None => try_get_next_with_mode(
                            self.next_mode_fallback,
                            state,
                            &current,
                            channel,
                            &self.covers,
                            playlist,
                        ),
                    };
                    let sync = match self.sync_mode {
                        Some(TraktorSyncMode::AbsoluteByNumber) => match find_song_by_number(
                            playlist,
                            current.track_number,
                        ) {
                            None => TraktorSyncAction::Relative(0),
                            Some(ci) => TraktorSyncAction::PlaylistAbsolute(ci),
                        },
                        Some(TraktorSyncMode::AbsoluteByName) => match find_song_by_name(
                            playlist,
                            &current.artist,
                            &current.title,
                        ) {
                            None => TraktorSyncAction::Relative(0),
                            Some(ci) => TraktorSyncAction::PlaylistAbsolute(ci),
                        },
                        _ => self.cached_sync_action,
                    };
                    (current, next, sync)
                },
            },
        };
        self.cached_song_info = Some(current);
        self.cached_next_song_info = next;
        self.cached_sync_action = sync;
    }

    /// The files loaded on the four decks, distinct and non-empty.
    fn get_loaded_files(&self) -> (r: Vec<String>)
        ensures
            r@ == loaded_files(self.state),
    {
        match &self.state {
            None => Vec::new(),
            Some(state) => {
                let files: Vec<String> = vec![
                    state.decks.0.content.file_path.clone(),
                    state.decks.1.content.file_path.clone(),
                    state.decks.2.content.file_path.clone(),
                    state.decks.3.content.file_path.clone(),
                ];
                proof {
                    assert(files@ =~= seq![
                        state.decks.0.content.file_path,
                        state.decks.1.content.file_path,
                        state.decks.2.content.file_path,
                        state.decks.3.content.file_path,
                    ]);
                }
                distinct_nonempty(&files)
            },
        }
    }

    /// Stores the art for `path`, replacing what was stored for it, and drops
    /// art of files no longer loaded.
    fn store_cover(&mut self, path: String, data: bytes::Bytes)
        ensures
            final(self).covers@ == covers_after_image(
                old(self).covers@,
                path,
                data,
                loaded_files(old(self).state),
            ),
            *final(self) == (TraktorDataProvider { covers: final(self).covers, ..*old(self) }),
    {
        let loaded = self.get_loaded_files();
        let mut old_covers: Vec<(String, bytes::Bytes)> = Vec::new();
        std::mem::swap(&mut old_covers, &mut self.covers);
        let mut kept: Vec<(String, bytes::Bytes)> = Vec::new();
        let mut i: usize = 0;
        while i < old_covers.len()
            invariant
                i <= old_covers@.len(),
                kept@ == covers_kept(old_covers@.take(i as int), path@, loaded@),
            decreases old_covers@.len() - i,
        {
            proof {
                assert(old_covers@.take(i + 1).drop_last() =~= old_covers@.take(i as int));
            }
            if old_covers[i].0 != path && contains_path(&loaded, &old_covers[i].0) {
                kept.push((old_covers[i].0.clone(), old_covers[i].1.clone()));
            }
            i = i + 1;
        }
        proof {
            assert(old_covers@.take(old_covers@.len() as int) =~= old_covers@);
        }
        if contains_path(&loaded, &path) {
            kept.push((path, data));
        }
        self.covers = kept;
    }

    /// Hands the pending correction out and leaves a zero relative one.
    pub fn take_sync_action(&mut self) -> (r: TraktorSyncAction)
        ensures
            r == old(self).cached_sync_action,
            *final(self) == (TraktorDataProvider {
                cached_sync_action: TraktorSyncAction::Relative(0),
                ..*old(self)
            }),
    {
        let action = self.cached_sync_action;
        self.cached_sync_action = TraktorSyncAction::Relative(0);
        action
    }

    /// The provider after a server event other than cover art or a log line.
    pub open spec fn after_message(self, message: ServerMessage, playlist: Seq<SongInfo>) -> Self {
        match message {
            ServerMessage::Ready => TraktorDataProvider { channel_open: true, ..self }.reset(),
            ServerMessage::Connect { time_offset_ms, initial_state } => TraktorDataProvider {
                time_offset_ms,
                sync_x_fader_is_left: initial_state.mixer.x_fader < X_FADER_CENTER,
                state: Some(*initial_state),
                ..self
            }.refreshed(playlist),
            ServerMessage::Update(update) => self.with_update(update).refreshed(playlist),
            _ => self,
        }
    }

    /// The relative correction and remembered side after the crossfader
    /// moved from `x_old` to `x_new`.
    fn follow_x_fader(&mut self, x_old: i32, x_new: i32)
        ensures
            final(self).sync_x_fader_is_left == side_after(
                old(self).sync_x_fader_is_left,
                x_new as int,
            ),
            final(self).cached_sync_action == accumulate(
                old(self).cached_sync_action,
                crossing_offset(x_old as int, x_new as int, old(self).sync_x_fader_is_left),
            ),
            *final(self) == (TraktorDataProvider {
                sync_x_fader_is_left: final(self).sync_x_fader_is_left,
                cached_sync_action: final(self).cached_sync_action,
                ..*old(self)
            }),
    {
        let mut offset: isize = 0;
        if x_old > X_FADER_CENTER && x_new <= X_FADER_CENTER {
            if self.sync_x_fader_is_left {
                offset = -1;
            } else {
                offset = 1;
            }
        } else if x_old <= X_FADER_CENTER && x_new > X_FADER_CENTER {
            if self.sync_x_fader_is_left {
                offset = 1;
            } else {
                offset = -1;
            }
        }
        if x_new < X_FADER_LEFT_BELOW {
            self.sync_x_fader_is_left = true;
        } else if x_new > X_FADER_RIGHT_ABOVE {
            self.sync_x_fader_is_left = false;
        }
        self.cached_sync_action = match self.cached_sync_action {
            TraktorSyncAction::Relative(prev) => TraktorSyncAction::Relative(
                match prev.checked_add(offset) {
                    Some(sum) => sum,
                    None => prev,
                },
            ),
            TraktorSyncAction::PlaylistAbsolute(_) => TraktorSyncAction::Relative(offset),
        };
    }

    /// Takes in one server event. `Ready` answers with the command that
    /// starts a new session; no other event asks for one.
    pub fn process_message(&mut self, message: ServerMessage, playlist: &[SongInfo]) -> (r: Option<
        AppMessage,
    >)
        ensures
            match message {
                ServerMessage::CoverImage { path, data } => {
                    &&& final(self).covers@ == covers_after_image(
                        old(self).covers@,
                        path,
                        data,
                        loaded_files(old(self).state),
                    )
                    &&& *final(self) == (TraktorDataProvider {
                        covers: final(self).covers,
                        ..*old(self)
                    })
                },
                ServerMessage::Log(msg) => {
                    &&& final(self).log@ == (if old(self).debug_logging {
                        old(self).log@.push(msg)
                    } else {
                        old(self).log@
                    })
                    &&& *final(self) == (TraktorDataProvider { log: final(self).log, ..*old(self) })
                },
                _ => *final(self) == old(self).after_message(message, playlist@),
            },
            old(self).wf() ==> final(self).wf(),
            r == (if message is Ready {
                Some(AppMessage::Reconnect { debug_logging: old(self).debug_logging })
            } else {
                None
            }),
    {
        match message {
            ServerMessage::Ready => {
                self.channel_open = true;
                self.time_offset_ms = 0;
                self.state = None;
                self.sync_x_fader_is_left = true;
                self.update_song_info(playlist);
                self.reconnect()
            },
            ServerMessage::Connect { time_offset_ms, initial_state } => {
                self.time_offset_ms = time_offset_ms;
                self.sync_x_fader_is_left = initial_state.mixer.x_fader < X_FADER_CENTER;
                self.state = Some(*initial_state);
                self.update_song_info(playlist);
                None
            },
            ServerMessage::Update(update) => {
                let x_old: Option<i32> = match &self.state {
                    Some(state) => Some(state.mixer.x_fader),
                    None => None,
                };
                if let Some(x_old) = x_old {
                    if let Some(TraktorSyncMode::Relative) = self.sync_mode {
                        if let StateUpdate::Mixer(new_mixer) = &update {
                            if self.is_ready() {
                                self.follow_x_fader(x_old, new_mixer.x_fader);
                            }
                        }
                    }
                    if let Some(state) = &mut self.state {
                        state.apply_update(update);
                    }
                }
                self.update_song_info(playlist);
                None
            },
            ServerMessage::CoverImage { path, data } => {
                proof {
                    if self.wf() {
                        lemma_covers_after_image_distinct(
                            self.covers@,
                            path,
                            data,
                            loaded_files(self.state),
                        );
                    }
                }
                self.store_cover(path, data);
                None
            },
            ServerMessage::Log(msg) => {
                if self.debug_logging {
                    self.log.push(msg);
                }
                None
            },
        }
    }
}

/// A deck scores 0 exactly when it is unloaded, stopped or silent, and
/// otherwise scores more than 0 and at most 2 * `FULL`; this holds for a
/// crossfader within its range, except at the far end away from the side the
/// channel is assigned to, where an audible deck also scores 0.
pub proof fn lemma_score_range(deck: DeckState, channel: ChannelState, mixer: MixerState)
    requires
        0 <= mixer.x_fader <= FULL,
        !(channel.x_fader_left && mixer.x_fader == FULL),
        !(channel.x_fader_right && mixer.x_fader == 0),
    ensures
        (deck_score(deck, channel, mixer) == 0) <==> (!deck.content.is_loaded
            || deck.play_state.speed == 0 || channel.volume == 0),
        deck_score(deck, channel, mixer) != 0 ==> 0 < deck_score(deck, channel, mixer) <= 2
            * FULL,
{
}

/// The current deck is the lowest position among those with the maximal
/// score, and is chosen only when that score is positive.
pub proof fn lemma_current_deck_lowest(s: State)
    ensures
        current_deck(s) matches Some(i) ==> {
            &&& 0 <= i < 4
            &&& score_at(s, i) > 0
            &&& forall|j: int| 0 <= j < 4 ==> #[trigger] score_at(s, j) <= score_at(s, i)
            &&& forall|j: int| 0 <= j < i ==> #[trigger] score_at(s, j) < score_at(s, i)
        },
        current_deck(s) is None ==> forall|j: int| 0 <= j < 4 ==> #[trigger] score_at(s, j) <= 0,
{
    assert forall|j: int| 0 <= j < 4 implies #[trigger] score_at(s, j) == score_at(s, j) && (j == 0
        || j == 1 || j == 2 || j == 3) by {}
}

/// Under absolute sync by number, a refresh that finds a current song makes
/// the correction a jump to position `i` exactly when `i` is the first
/// playlist position with the current song's track number, and a zero
/// relative step exactly when no playlist song has that number.
pub proof fn lemma_absolute_by_number(p: TraktorDataProvider, playlist: Seq<SongInfo>)
    requires
        p.sync_mode == Some(TraktorSyncMode::AbsoluteByNumber),
        playlist.len() <= usize::MAX,
    ensures
        p.refreshed(playlist).cached_song_info matches Some(current) ==> {
            let action = p.refreshed(playlist).cached_sync_action;
            &&& forall|i: int|
                #![trigger playlist[i]]
                0 <= i < playlist.len() ==> (action == TraktorSyncAction::PlaylistAbsolute(
                    i as usize,
                ) <==> (playlist[i].track_number == current.track_number && forall|j: int|
                    0 <= j < i ==> #[trigger] playlist[j].track_number != current.track_number))
            &&& (action == TraktorSyncAction::Relative(0)) <==> (forall|i: int|
                0 <= i < playlist.len() ==> #[trigger] playlist[i].track_number
                    != current.track_number)
        },
{
    let q = p.refreshed(playlist);
    if let Some(current) = q.cached_song_info {
        lemma_song_by_number_from(playlist, current.track_number, 0);
        let action = q.cached_sync_action;
        assert(action == sync_after_refresh(p.sync_mode, current, playlist, p.cached_sync_action));
        match song_by_number(playlist, current.track_number) {
            Some(k) => {
                assert forall|i: int|
                    #![trigger playlist[i]]
                    0 <= i < playlist.len() implies (action
                    == TraktorSyncAction::PlaylistAbsolute(i as usize) <==> (
                    playlist[i].track_number == current.track_number && forall|j: int|
                        0 <= j < i ==> #[trigger] playlist[j].track_number
                            != current.track_number)) by {
                    if i < k {
                        assert(i as usize != k as usize);
                    } else if i > k {
                        assert(i as usize != k as usize);
                        assert(playlist[k].track_number == current.track_number);
                    }
                }
                assert(playlist[k].track_number == current.track_number);
            },
            None => {},
        }
    }
}

/// When the provider is ready and some deck scores above 0, the song it
/// shows comes from the lowest position among the decks with the maximal
/// score.
pub proof fn lemma_shown_song_lowest_tied(p: TraktorDataProvider, playlist: Seq<SongInfo>, k: int)
    requires
        p.spec_is_ready(),
        p.state is Some,
        0 <= k < 4,
        score_at(p.state->0, k) > 0,
        forall|j: int| 0 <= j < 4 ==> #[trigger] score_at(p.state->0, j) <= score_at(p.state->0, k),
        forall|j: int| 0 <= j < k ==> #[trigger] score_at(p.state->0, j) < score_at(p.state->0, k),
    ensures
        p.refreshed(playlist).cached_song_info == Some(
            song_from_deck(p.state->0.deck(k).content, p.covers@, playlist),
        ),
{
    let s = p.state->0;
    lemma_current_deck_lowest(s);
    assert(score_at(s, 0) <= score_at(s, k));
    assert(score_at(s, 1) <= score_at(s, k));
    assert(score_at(s, 2) <= score_at(s, k));
    assert(score_at(s, 3) <= score_at(s, k));
    if k > 0 {
        assert(score_at(s, 0) < score_at(s, k));
    }
    if k > 1 {
        assert(score_at(s, 1) < score_at(s, k));
    }
    if k > 2 {
        assert(score_at(s, 2) < score_at(s, k));
    }
    assert(current_deck(s) == Some(k));
}

} // verus!
