use danceinterpreter::model::{
    parse_update_route, ChannelState, DeckContentState, DeckPlayState, DeckState, MixerState,
    State, StateUpdate, UpdateTarget, FULL, ID,
};

fn content_named(title: &str) -> DeckContentState {
    DeckContentState {
        is_loaded: true,
        number: 3,
        title: title.to_string(),
        artist: "artist".to_string(),
        album: "album".to_string(),
        genre: "waltz".to_string(),
        comment: String::new(),
        comment2: String::new(),
        label: String::new(),
        key: "8A".to_string(),
        file_path: format!("/{}.mp3", title),
        track_length: 180_000,
        bpm: 96_500,
    }
}

fn sample_state() -> State {
    let play = DeckPlayState { timestamp: 1, position: 2, speed: FULL };
    State::from_flattened(
        MixerState { x_fader: 1, master_volume: 2, cue_volume: 3, cue_mix: 4, mic_volume: 5 },
        ChannelState { cue: false, volume: 10, x_fader_left: true, x_fader_right: false },
        ChannelState { cue: true, volume: 11, x_fader_left: false, x_fader_right: true },
        ChannelState { cue: false, volume: 12, x_fader_left: false, x_fader_right: false },
        ChannelState { cue: false, volume: 13, x_fader_left: true, x_fader_right: true },
        content_named("a"),
        content_named("b"),
        content_named("c"),
        content_named("d"),
        play,
        DeckPlayState { timestamp: 5, position: 6, speed: 0 },
        play,
        play,
    )
}

#[test]
fn flattened_state_folds_in_order() {
    let s = sample_state();
    assert_eq!(s.channels.1.volume, 11);
    assert_eq!(s.channels.3.volume, 13);
    assert_eq!(s.decks.0.content.title, "a");
    assert_eq!(s.decks.3.content.title, "d");
    assert_eq!(s.decks.1.play_state.position, 6);
    assert_eq!(s.mixer.mic_volume, 5);
}

#[test]
fn deck_content_round_trip() {
    let mut s = sample_state();
    let before = s.clone();
    s.apply_update(StateUpdate::DeckContent(ID::B, Box::new(content_named("x"))));
    assert_eq!(s.decks.1.content, content_named("x"));
    assert_eq!(s.decks.1.play_state, before.decks.1.play_state);
    assert_eq!(s.decks.0, before.decks.0);
    assert_eq!(s.decks.2, before.decks.2);
    assert_eq!(s.decks.3, before.decks.3);
    assert_eq!(s.channels, before.channels);
    assert_eq!(s.mixer, before.mixer);
}

#[test]
fn other_updates_replace_one_slot() {
    let mut s = sample_state();
    let before = s.clone();
    let m = MixerState { x_fader: 9, master_volume: 9, cue_volume: 9, cue_mix: 9, mic_volume: 9 };
    s.apply_update(StateUpdate::Mixer(m));
    assert_eq!(s.mixer, m);
    let c = ChannelState { cue: true, volume: 0, x_fader_left: false, x_fader_right: false };
    s.apply_update(StateUpdate::Channel(ID::D, c));
    assert_eq!(s.channels.3, c);
    assert_eq!(s.channels.0, before.channels.0);
    let p = DeckPlayState { timestamp: 9, position: 9, speed: 9 };
    s.apply_update(StateUpdate::DeckPlayState(ID::C, p));
    assert_eq!(s.decks.2.play_state, p);
    assert_eq!(s.decks.2.content, before.decks.2.content);
    assert_eq!(s.decks.0, before.decks.0);
    assert_eq!(s.decks.1, before.decks.1);
    assert_eq!(s.decks.3, before.decks.3);
}

#[test]
fn update_routes() {
    assert_eq!(parse_update_route(&"mixer".to_string()), Some(UpdateTarget::Mixer));
    assert_eq!(parse_update_route(&"channel2".to_string()), Some(UpdateTarget::Channel(ID::C)));
    assert_eq!(parse_update_route(&"deck0content".to_string()), Some(UpdateTarget::DeckContent(ID::A)));
    assert_eq!(parse_update_route(&"deck3playstate".to_string()), Some(UpdateTarget::DeckPlayState(ID::D)));
    assert_eq!(parse_update_route(&"channel4".to_string()), None);
    assert_eq!(parse_update_route(&"".to_string()), None);
}

#[test]
fn deck_ids_index() {
    assert_eq!(ID::A.index(), 0);
    assert_eq!(ID::D.index(), 3);
}
