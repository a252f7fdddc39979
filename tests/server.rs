use bytes::Bytes;
use danceinterpreter::model::{
    ChannelState, DeckContentState, DeckPlayState, DeckState, InitializeRequest, MixerState,
    ServerMessage, State, StateUpdate, FULL, ID,
};
use danceinterpreter::server::{time_offset, CoverStatus, TraktorServer, MAX_QUEUE_LENGTH};

fn deck_content(path: &str) -> DeckContentState {
    DeckContentState {
        is_loaded: !path.is_empty(),
        number: 1,
        title: "t".to_string(),
        artist: "a".to_string(),
        album: String::new(),
        genre: String::new(),
        comment: String::new(),
        comment2: String::new(),
        label: String::new(),
        key: String::new(),
        file_path: path.to_string(),
        track_length: 1000,
        bpm: 0,
    }
}

fn deck(path: &str) -> DeckState {
    DeckState {
        content: deck_content(path),
        play_state: DeckPlayState { timestamp: 0, position: 0, speed: FULL },
    }
}

fn full_state(paths: [&str; 4]) -> State {
    let c = ChannelState { cue: false, volume: FULL, x_fader_left: false, x_fader_right: false };
    State {
        mixer: mixer_state(0),
        channels: (c, c, c, c),
        decks: (deck(paths[0]), deck(paths[1]), deck(paths[2]), deck(paths[3])),
    }
}

fn mixer_state(x: i32) -> MixerState {
    MixerState { x_fader: x, master_volume: 0, cue_volume: 0, cue_mix: 0, mic_volume: 0 }
}

fn started() -> TraktorServer<u32> {
    let mut server: TraktorServer<u32> = TraktorServer::new();
    assert!(!server.is_started());
    server.reconnect(false);
    assert!(server.is_started());
    server
}

fn init_request(token: &str, paths: [&str; 4]) -> InitializeRequest {
    InitializeRequest { session_id: token.to_string(), timestamp: 1_000, state: full_state(paths) }
}

#[test]
fn new_session_tokens_differ() {
    let mut server = started();
    let t1 = server.handle_connect().session_id;
    assert_eq!(t1.len(), 36);
    server.reconnect(true);
    let response = server.handle_connect();
    assert_ne!(response.session_id, t1);
    assert!(response.debug_logging);
}

#[test]
fn queue_rotates_on_twenty_first_update() {
    let mut server = started();
    let t1 = server.handle_connect().session_id;
    for i in 0..MAX_QUEUE_LENGTH {
        let r = server.handle_update(&t1, StateUpdate::Mixer(mixer_state(i as i32)));
        assert_eq!(r.session_id, t1);
        assert!(r.events.is_empty());
        assert_eq!(server.queue.len(), i + 1);
    }
    let r = server.handle_update(&t1, StateUpdate::Mixer(mixer_state(99)));
    let t2 = r.session_id.clone();
    assert_ne!(t2, t1);
    assert!(server.queue.is_empty());
    assert!(!server.is_initialized);
    // the old token is now ignored
    let r = server.handle_update(&t1, StateUpdate::Mixer(mixer_state(5)));
    assert_eq!(r.session_id, t2);
    assert!(server.queue.is_empty());
}

#[test]
fn end_to_end_session() {
    let mut server = started();
    let t1 = server.handle_connect().session_id;
    for i in 0..25 {
        server.handle_update(&t1, StateUpdate::Mixer(mixer_state(i)));
    }
    let r = server.handle_init(init_request(&t1, ["", "", "", ""]), Some(0));
    assert!(r.events.is_empty());
    assert!(!server.is_initialized);
    let t2 = server.handle_connect().session_id;
    assert_ne!(t2, t1);
    assert_eq!(r.session_id, t2);
    let r = server.handle_init(init_request(&t2, ["", "", "", ""]), Some(400));
    assert_eq!(r.session_id, t2);
    assert!(server.is_initialized);
    assert_eq!(r.events.len(), 1);
    assert_eq!(
        r.events[0],
        ServerMessage::Connect {
            time_offset_ms: 600,
            initial_state: Box::new(full_state(["", "", "", ""])),
        }
    );
    let r = server.handle_update(&t2, StateUpdate::Mixer(mixer_state(7)));
    assert_eq!(r.events, vec![ServerMessage::Update(StateUpdate::Mixer(mixer_state(7)))]);
    assert!(server.queue.is_empty());
}

#[test]
fn init_flushes_queue_in_order() {
    let mut server = started();
    let t = server.handle_connect().session_id;
    server.handle_update(&t, StateUpdate::Mixer(mixer_state(1)));
    server.handle_update(&t, StateUpdate::Mixer(mixer_state(2)));
    let r = server.handle_init(init_request(&t, ["", "", "", ""]), None);
    assert_eq!(r.events.len(), 3);
    assert_eq!(
        r.events[0],
        ServerMessage::Connect {
            time_offset_ms: 0,
            initial_state: Box::new(full_state(["", "", "", ""])),
        }
    );
    assert_eq!(r.events[1], ServerMessage::Update(StateUpdate::Mixer(mixer_state(1))));
    assert_eq!(r.events[2], ServerMessage::Update(StateUpdate::Mixer(mixer_state(2))));
    assert!(server.queue.is_empty());
}

#[test]
fn time_offset_values() {
    assert_eq!(time_offset(1_000, Some(400)), 600);
    assert_eq!(time_offset(400, Some(1_000)), -600);
    assert_eq!(time_offset(5, None), 0);
    assert_eq!(time_offset(u64::MAX, Some(0)), i64::MAX);
}

#[test]
fn required_images_are_announced_once() {
    let mut server = started();
    let t = server.handle_connect().session_id;
    let r = server.handle_init(init_request(&t, ["/a", "", "/b", "/a"]), None);
    assert_eq!(r.new_images, vec!["/a".to_string(), "/b".to_string()]);
    assert_eq!(server.get_required_images(), vec!["/a".to_string(), "/b".to_string()]);
    assert_eq!(server.pending_images, vec!["/a".to_string(), "/b".to_string()]);
    let r = server.handle_update(&t, StateUpdate::DeckContent(ID::B, Box::new(deck_content("/c"))));
    assert_eq!(r.new_images, vec!["/c".to_string()]);
    let r = server.handle_update(&t, StateUpdate::DeckContent(ID::A, Box::new(deck_content(""))));
    assert!(r.new_images.is_empty());
    assert_eq!(server.pending_images, vec!["/a".to_string(), "/b".to_string(), "/c".to_string()]);
}

#[test]
fn cover_upload_outcomes() {
    let mut server = started();
    let t = server.handle_connect().session_id;
    server.handle_init(init_request(&t, ["/a", "/b", "", ""]), None);
    let (status, event) = server.handle_cover("/a".to_string(), Bytes::new());
    assert_eq!(status, CoverStatus::BadRequest);
    assert_eq!(event, None);
    let (status, event) = server.handle_cover("/x".to_string(), Bytes::from_static(b"img"));
    assert_eq!(status, CoverStatus::Ignored);
    assert_eq!(event, None);
    let (status, event) = server.handle_cover("/a".to_string(), Bytes::from_static(b"img"));
    assert_eq!(status, CoverStatus::Accepted);
    assert_eq!(
        event,
        Some(ServerMessage::CoverImage { path: "/a".to_string(), data: Bytes::from_static(b"img") })
    );
    assert_eq!(server.loaded_images, vec!["/a".to_string()]);
    assert_eq!(server.pending_images, vec!["/b".to_string()]);
    server.handle_cover("/a".to_string(), Bytes::from_static(b"img2"));
    assert_eq!(server.loaded_images, vec!["/a".to_string()]);
}

#[test]
fn cover_sockets_get_free_numbers() {
    let mut server = started();
    assert_eq!(server.handle_socket_connect(10), Some(0));
    assert_eq!(server.handle_socket_connect(11), Some(1));
    server.handle_socket_disconnect(0);
    assert_eq!(server.handle_socket_connect(12), Some(1 + 1));
    assert_eq!(server.cover_sockets.len(), 2);
    server.cover_socket_id = usize::MAX;
    assert_eq!(server.handle_socket_connect(13), Some(usize::MAX));
    assert_eq!(server.handle_socket_connect(14), None);
}

#[test]
fn log_lines_pass_through() {
    let server = started();
    assert_eq!(server.handle_log("hi".to_string()), ServerMessage::Log("hi".to_string()));
}

#[test]
fn foreign_token_is_ignored() {
    let mut server = started();
    let t = server.handle_connect().session_id;
    let r = server.handle_init(init_request("nope", ["/a", "", "", ""]), None);
    assert_eq!(r.session_id, t);
    assert!(r.events.is_empty());
    assert!(!server.is_initialized);
    assert!(server.pending_images.is_empty());
}
