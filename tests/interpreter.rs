use bytes::Bytes;
use danceinterpreter::interpreter::{
    find_current_deck, get_deck_score, TraktorDataProvider, TraktorNextMode, TraktorSyncAction,
    TraktorSyncMode,
};
use danceinterpreter::model::{
    AppMessage, ChannelState, DeckContentState, DeckPlayState, DeckState, MixerState,
    ServerMessage, State, StateUpdate, FULL, ID,
};
use danceinterpreter::songinfo::SongInfo;

fn content(number: u32, title: &str, artist: &str, path: &str) -> DeckContentState {
    DeckContentState {
        is_loaded: true,
        number,
        title: title.to_string(),
        artist: artist.to_string(),
        album: String::new(),
        genre: format!("dance {}", number),
        comment: String::new(),
        comment2: String::new(),
        label: String::new(),
        key: String::new(),
        file_path: path.to_string(),
        track_length: 200_000,
        bpm: 120_000,
    }
}

fn playing(position: i64) -> DeckPlayState {
    DeckPlayState { timestamp: 0, position, speed: FULL }
}

fn channel(volume: i32, left: bool, right: bool) -> ChannelState {
    ChannelState { cue: false, volume, x_fader_left: left, x_fader_right: right }
}

fn mixer(x: i32) -> MixerState {
    MixerState { x_fader: x, master_volume: FULL, cue_volume: FULL, cue_mix: 0, mic_volume: 0 }
}

/// Deck A on the left playing track 1, deck B on the right playing track 2,
/// decks C and D empty.
fn console(x: i32) -> State {
    let mut empty_c = content(0, "", "", "");
    empty_c.is_loaded = false;
    let mut empty_d = content(0, "", "", "");
    empty_d.is_loaded = false;
    State {
        mixer: mixer(x),
        channels: (
            channel(FULL, true, false),
            channel(FULL, false, true),
            channel(FULL, false, false),
            channel(FULL, false, false),
        ),
        decks: (
            DeckState { content: content(1, "One", "Ann", "/a.mp3"), play_state: playing(150_000) },
            DeckState { content: content(2, "Two", "Bob", "/b.mp3"), play_state: playing(10_000) },
            DeckState { content: empty_c, play_state: playing(0) },
            DeckState { content: empty_d, play_state: playing(0) },
        ),
    }
}

fn song(number: u32, title: &str, artist: &str) -> SongInfo {
    SongInfo::new(number, title.to_string(), artist.to_string(), String::new(), None)
}

fn ready_provider(sync: Option<TraktorSyncMode>, next: Option<TraktorNextMode>) -> TraktorDataProvider {
    let mut p = TraktorDataProvider::new();
    p.is_enabled = true;
    p.sync_mode = sync;
    p.next_mode = next;
    let cmd = p.process_message(ServerMessage::Ready, &[]);
    assert_eq!(cmd, Some(AppMessage::Reconnect { debug_logging: false }));
    p
}

fn connect(p: &mut TraktorDataProvider, state: State, playlist: &[SongInfo]) {
    p.process_message(
        ServerMessage::Connect { time_offset_ms: 5, initial_state: Box::new(state) },
        playlist,
    );
}

fn move_x_fader(p: &mut TraktorDataProvider, x: i32) {
    p.process_message(ServerMessage::Update(StateUpdate::Mixer(mixer(x))), &[]);
}

#[test]
fn score_values() {
    let s = console(FULL / 2);
    let deck = &s.decks.0;
    let left = channel(FULL, true, false);
    let right = channel(FULL, false, true);
    assert_eq!(get_deck_score(deck, &left, &mixer(FULL / 2)), FULL as i64);
    assert_eq!(get_deck_score(deck, &left, &mixer(750_000)), 500_000);
    assert_eq!(get_deck_score(deck, &right, &mixer(250_000)), 500_000);
    assert_eq!(get_deck_score(deck, &right, &mixer(900_000)), FULL as i64);
    assert_eq!(get_deck_score(deck, &channel(FULL, false, false), &mixer(0)), FULL as i64);
}

#[test]
fn score_zero_when_silent_stopped_or_unloaded() {
    let s = console(FULL / 2);
    let m = mixer(FULL / 2);
    assert_eq!(get_deck_score(&s.decks.0, &channel(0, true, false), &m), 0);
    let stopped = DeckState {
        content: content(1, "One", "Ann", "/a.mp3"),
        play_state: DeckPlayState { timestamp: 0, position: 0, speed: 0 },
    };
    assert_eq!(get_deck_score(&stopped, &channel(FULL, true, false), &m), 0);
    assert_eq!(get_deck_score(&s.decks.2, &channel(FULL, true, false), &m), 0);
}

#[test]
fn score_positive_and_bounded_over_fader_range() {
    let s = console(0);
    for (left, right) in [(true, false), (false, true), (false, false), (true, true)] {
        for x in [1, 100_000, 499_999, 500_000, 500_001, 800_000, 999_999] {
            let score = get_deck_score(&s.decks.0, &channel(FULL, left, right), &mixer(x));
            assert!(score > 0 && score <= 2 * FULL as i64, "x {} gave {}", x, score);
        }
    }
}

#[test]
fn current_deck_ties_go_to_lowest_position() {
    let mut s = console(FULL / 2);
    s.channels.1 = channel(FULL, false, false);
    assert_eq!(find_current_deck(&s), Some(0));
    s.decks.0.play_state.speed = 0;
    assert_eq!(find_current_deck(&s), Some(1));
    s.decks.1.content.is_loaded = false;
    assert_eq!(find_current_deck(&s), None);
}

#[test]
fn current_deck_follows_crossfader() {
    assert_eq!(find_current_deck(&console(100_000)), Some(0));
    assert_eq!(find_current_deck(&console(900_000)), Some(1));
    assert_eq!(find_current_deck(&console(FULL / 2)), Some(0));
}

#[test]
fn current_song_from_console() {
    let mut p = ready_provider(None, Some(TraktorNextMode::DeckByNumber));
    connect(&mut p, console(900_000), &[]);
    let current = p.get_song_info().unwrap();
    assert_eq!(current.track_number, 2);
    assert_eq!(current.title, "Two");
    assert_eq!(current.artist, "Bob");
    assert_eq!(current.dance, "dance 2");
    assert_eq!(p.get_next_song_info(), None);
}

#[test]
fn no_song_while_not_ready() {
    let mut p = TraktorDataProvider::new();
    p.process_message(ServerMessage::Ready, &[]);
    connect(&mut p, console(100_000), &[]);
    assert_eq!(p.get_song_info(), None);
}

#[test]
fn next_by_deck_number() {
    let mut p = ready_provider(None, Some(TraktorNextMode::DeckByNumber));
    connect(&mut p, console(100_000), &[]);
    assert_eq!(p.get_song_info().unwrap().track_number, 1);
    assert_eq!(p.get_next_song_info().unwrap().title, "Two");
}

#[test]
fn next_by_deck_position() {
    let mut p = ready_provider(None, Some(TraktorNextMode::DeckByPosition));
    connect(&mut p, console(100_000), &[]);
    assert_eq!(p.get_next_song_info().unwrap().title, "Two");
    let mut p = ready_provider(None, Some(TraktorNextMode::DeckByPosition));
    connect(&mut p, console(900_000), &[]);
    // deck A has played 150 of its 200 seconds: past the half
    assert_eq!(p.get_next_song_info(), None);
}

#[test]
fn next_by_playlist_number_and_name_with_fallback() {
    let playlist = vec![song(1, "One", "Ann"), song(7, "Seven", "Eve"), song(3, "Three", "Cy")];
    let mut p = ready_provider(None, Some(TraktorNextMode::PlaylistByNumber));
    connect(&mut p, console(100_000), &playlist);
    assert_eq!(p.get_next_song_info().unwrap().title, "Seven");
    let mut p = ready_provider(None, Some(TraktorNextMode::PlaylistByName));
    connect(&mut p, console(100_000), &playlist);
    assert_eq!(p.get_next_song_info().unwrap().title, "Seven");
    let mut p = ready_provider(None, Some(TraktorNextMode::PlaylistByNumber));
    p.next_mode_fallback = Some(TraktorNextMode::DeckByNumber);
    connect(&mut p, console(100_000), &[song(1, "x", "y")]);
    assert_eq!(p.get_next_song_info().unwrap().title, "Two");
}

#[test]
fn relative_sync_scripted_crossfader() {
    let mut p = ready_provider(Some(TraktorSyncMode::Relative), None);
    connect(&mut p, console(100_000), &[]);
    for x in [900_000, 400_000, 100_000, 600_000, 900_000] {
        move_x_fader(&mut p, x);
    }
    assert_eq!(p.take_sync_action(), TraktorSyncAction::Relative(3));
    assert_eq!(p.take_sync_action(), TraktorSyncAction::Relative(0));
}

#[test]
fn relative_sync_hysteresis_boundaries() {
    let mut p = ready_provider(Some(TraktorSyncMode::Relative), None);
    connect(&mut p, console(100_000), &[]);
    // exactly 0.8 keeps the left side remembered
    move_x_fader(&mut p, 800_000);
    move_x_fader(&mut p, 400_000);
    assert_eq!(p.take_sync_action(), TraktorSyncAction::Relative(0));
    // exactly 0.2 keeps the right side remembered: +1, +1, -1
    move_x_fader(&mut p, 900_000);
    move_x_fader(&mut p, 200_000);
    move_x_fader(&mut p, 600_000);
    assert_eq!(p.take_sync_action(), TraktorSyncAction::Relative(1));
    // below 0.2 the left side is remembered: +1, +1
    move_x_fader(&mut p, 100_000);
    move_x_fader(&mut p, 600_000);
    assert_eq!(p.take_sync_action(), TraktorSyncAction::Relative(2));
}

#[test]
fn relative_step_replaces_absolute() {
    let playlist = vec![song(1, "One", "Ann")];
    let mut p = ready_provider(Some(TraktorSyncMode::AbsoluteByNumber), None);
    connect(&mut p, console(100_000), &playlist);
    p.sync_mode = Some(TraktorSyncMode::Relative);
    move_x_fader(&mut p, 900_000);
    assert_eq!(p.take_sync_action(), TraktorSyncAction::Relative(1));
}

#[test]
fn absolute_by_number_first_match() {
    let playlist = vec![song(5, "a", "b"), song(1, "c", "d"), song(1, "e", "f")];
    let mut p = ready_provider(Some(TraktorSyncMode::AbsoluteByNumber), None);
    connect(&mut p, console(100_000), &playlist);
    assert_eq!(p.take_sync_action(), TraktorSyncAction::PlaylistAbsolute(1));
}

#[test]
fn absolute_by_number_without_match() {
    let playlist = vec![song(5, "a", "b"), song(6, "c", "d")];
    let mut p = ready_provider(Some(TraktorSyncMode::AbsoluteByNumber), None);
    connect(&mut p, console(100_000), &playlist);
    assert_eq!(p.take_sync_action(), TraktorSyncAction::Relative(0));
}

#[test]
fn absolute_by_name() {
    let playlist = vec![song(9, "Two", "Bob"), song(2, "One", "Ann")];
    let mut p = ready_provider(Some(TraktorSyncMode::AbsoluteByName), None);
    connect(&mut p, console(100_000), &playlist);
    assert_eq!(p.take_sync_action(), TraktorSyncAction::PlaylistAbsolute(1));
}

#[test]
fn cover_art_by_file_then_playlist() {
    let art = Bytes::from_static(b"png");
    let mut listed = song(1, "One", "Ann");
    listed.album_art = Some(Bytes::from_static(b"jpg"));
    let playlist = vec![listed];
    let mut p = ready_provider(None, None);
    connect(&mut p, console(100_000), &playlist);
    assert_eq!(p.get_song_info().unwrap().album_art, Some(Bytes::from_static(b"jpg")));
    p.process_message(ServerMessage::CoverImage { path: "/a.mp3".to_string(), data: art.clone() }, &playlist);
    assert_eq!(p.covers.len(), 1);
    move_x_fader(&mut p, 100_000);
    assert_eq!(p.get_song_info().unwrap().album_art, Some(art));
    // art for a file on no deck is not kept
    p.process_message(ServerMessage::CoverImage { path: "/z.mp3".to_string(), data: Bytes::from_static(b"z") }, &playlist);
    assert_eq!(p.covers.len(), 1);
}

#[test]
fn log_kept_only_while_debugging() {
    let mut p = TraktorDataProvider::new();
    p.process_message(ServerMessage::Log("a".to_string()), &[]);
    assert!(p.get_log().is_empty());
    p.debug_logging = true;
    p.process_message(ServerMessage::Log("b".to_string()), &[]);
    assert_eq!(p.get_log(), &["b".to_string()]);
    p.clear_log();
    assert!(p.get_log().is_empty());
}

#[test]
fn reconnect_forgets_state() {
    let mut p = ready_provider(None, None);
    p.debug_logging = true;
    connect(&mut p, console(100_000), &[]);
    assert!(p.get_song_info().is_some());
    assert_eq!(p.reconnect(), Some(AppMessage::Reconnect { debug_logging: true }));
    assert!(p.state.is_none());
    assert_eq!(p.get_song_info(), None);
    p.channel_closed();
    assert_eq!(p.reconnect(), None);
    assert!(!p.is_ready());
}

#[test]
fn socket_address_text() {
    let mut p = TraktorDataProvider::new();
    assert_eq!(p.get_socket_addr(), None);
    p.is_enabled = true;
    assert_eq!(p.get_socket_addr(), Some("127.0.0.1:8080".to_string()));
    p.submitted_address = "0.0.0.0:9000".to_string();
    assert_eq!(p.get_socket_addr(), Some("0.0.0.0:9000".to_string()));
}

#[test]
fn update_applies_to_state() {
    let mut p = ready_provider(None, None);
    connect(&mut p, console(100_000), &[]);
    p.process_message(
        ServerMessage::Update(StateUpdate::DeckContent(ID::C, Box::new(content(4, "Four", "Dee", "/d.mp3")))),
        &[],
    );
    assert_eq!(p.state.as_ref().unwrap().decks.2.content.title, "Four");
}

#[test]
fn disabled_sync_stays_zero() {
    let mut p = ready_provider(None, None);
    connect(&mut p, console(100_000), &[song(1, "One", "Ann")]);
    move_x_fader(&mut p, 900_000);
    move_x_fader(&mut p, 100_000);
    assert_eq!(p.take_sync_action(), TraktorSyncAction::Relative(0));
}

#[test]
fn relative_sync_waits_for_readiness() {
    let mut p = ready_provider(Some(TraktorSyncMode::Relative), None);
    connect(&mut p, console(100_000), &[]);
    p.is_enabled = false;
    move_x_fader(&mut p, 900_000);
    assert_eq!(p.take_sync_action(), TraktorSyncAction::Relative(0));
}
