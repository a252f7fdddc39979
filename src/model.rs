use vstd::prelude::*;

verus! {

/// Fixed-point scale of fader, volume and speed values: `FULL` stands for 1.0.
pub const FULL: i32 = 1_000_000;

/// One of the four decks, and the mixer channel that carries it.
#[derive(Debug, Clone, Copy, PartialEq, Eq, Structural)]
pub enum ID {
    A,
    B,
    C,
    D,
}

impl ID {
    /// Position of the deck among the four, from 0 to 3.
    pub open spec fn spec_index(self) -> int {
        match self {
            ID::A => 0,
            ID::B => 1,
            ID::C => 2,
            ID::D => 3,
        }
    }

    pub fn index(&self) -> (r: usize)
        ensures
            r as int == self.spec_index(),
    {
        match self {
            ID::A => 0,
            ID::B => 1,
            ID::C => 2,
            ID::D => 3,
        }
    }
}

/// The mixer section. Every value is in millionths (`FULL` is 1.0); the
/// crossfader runs from 0 (fully left) to `FULL` (fully right).
#[derive(Debug, Clone, Copy, PartialEq)]
pub struct MixerState {
    pub x_fader: i32,
    pub master_volume: i32,
    pub cue_volume: i32,
    pub cue_mix: i32,
    pub mic_volume: i32,
}

/// One mixer channel: its volume in millionths, and the crossfader side or
/// sides it is assigned to.
#[derive(Debug, Clone, Copy, PartialEq)]
pub struct ChannelState {
    pub cue: bool,
    pub volume: i32,
    pub x_fader_left: bool,
    pub x_fader_right: bool,
}

/// What is loaded on a deck. The track length is in milliseconds and the
/// tempo in thousandths of a beat per minute.
#[derive(Debug, PartialEq)]
pub struct DeckContentState {
    pub is_loaded: bool,
    pub number: u32,
    pub title: String,
    pub artist: String,
    pub album: String,
    pub genre: String,
    pub comment: String,
    pub comment2: String,
    pub label: String,
    pub key: String,
    pub file_path: String,
    pub track_length: i64,
    pub bpm: i64,
}

impl Clone for DeckContentState {
    fn clone(&self) -> (r: Self)
        ensures
            r == *self,
    {
        DeckContentState {
            is_loaded: self.is_loaded,
            number: self.number,
            title: self.title.clone(),
            artist: self.artist.clone(),
            album: self.album.clone(),
            genre: self.genre.clone(),
            comment: self.comment.clone(),
            comment2: self.comment2.clone(),
            label: self.label.clone(),
            key: self.key.clone(),
            file_path: self.file_path.clone(),
            track_length: self.track_length,
            bpm: self.bpm,
        }
    }
}

/// The transport of a deck: the position in milliseconds and the speed in
/// millionths (0 when stopped).
#[derive(Debug, Clone, Copy, PartialEq)]
pub struct DeckPlayState {
    pub timestamp: u64,
    pub position: i64,
    pub speed: i32,
}

#[derive(Debug, PartialEq)]
pub struct DeckState {
    pub content: DeckContentState,
    pub play_state: DeckPlayState,
}

impl Clone for DeckState {
    fn clone(&self) -> (r: Self)
        ensures
            r == *self,
    {
        DeckState { content: self.content.clone(), play_state: self.play_state }
    }
}

/// The whole console: the mixer, four channels and four decks.
#[derive(Debug, PartialEq)]
pub struct State {
    pub mixer: MixerState,
    pub channels: (ChannelState, ChannelState, ChannelState, ChannelState),
    pub decks: (DeckState, DeckState, DeckState, DeckState),
}

impl Clone for State {
    fn clone(&self) -> (r: Self)
        ensures
            r == *self,
    {
        State {
            mixer: self.mixer,
            channels: self.channels,
            decks: (
                self.decks.0.clone(),
                self.decks.1.clone(),
                self.decks.2.clone(),
                self.decks.3.clone(),
            ),
        }
    }
}

/// A change of exactly one slot of the console state.
#[derive(Debug, PartialEq)]
pub enum StateUpdate {
    Mixer(MixerState),
    Channel(ID, ChannelState),
    DeckContent(ID, Box<DeckContentState>),
    DeckPlayState(ID, DeckPlayState),
}

impl Clone for StateUpdate {
    fn clone(&self) -> (r: Self)
        ensures
            r == *self,
    {
        match self {
            StateUpdate::Mixer(m) => StateUpdate::Mixer(*m),
            StateUpdate::Channel(id, c) => StateUpdate::Channel(*id, *c),
            StateUpdate::DeckContent(id, c) => StateUpdate::DeckContent(
                *id,
                Box::new((**c).clone()),
            ),
            StateUpdate::DeckPlayState(id, p) => StateUpdate::DeckPlayState(*id, *p),
        }
    }
}

impl State {
    /// The channel of the deck at position `i` (0 to 3).
    pub open spec fn channel(self, i: int) -> ChannelState {
        if i == 0 {
            self.channels.0
        } else if i == 1 {
            self.channels.1
        } else if i == 2 {
            self.channels.2
        } else {
            self.channels.3
        }
    }

    /// The deck at position `i` (0 to 3).
    pub open spec fn deck(self, i: int) -> DeckState {
        if i == 0 {
            self.decks.0
        } else if i == 1 {
            self.decks.1
        } else if i == 2 {
            self.decks.2
        } else {
            self.decks.3
        }
    }

    /// The state after `update` replaced the one slot it addresses.
    pub open spec fn spec_apply(self, update: StateUpdate) -> State {
        match update {
            StateUpdate::Mixer(m) => State { mixer: m, ..self },
            StateUpdate::Channel(id, c) => State {
                channels: match id {
                    ID::A => (c, self.channels.1, self.channels.2, self.channels.3),
                    ID::B => (self.channels.0, c, self.channels.2, self.channels.3),
                    ID::C => (self.channels.0, self.channels.1, c, self.channels.3),
                    ID::D => (self.channels.0, self.channels.1, self.channels.2, c),
                },
                ..self
            },
            StateUpdate::DeckContent(id, c) => State {
                decks: match id {
                    ID::A => (
                        DeckState { content: *c, ..self.decks.0 },
                        self.decks.1,
                        self.decks.2,
                        self.decks.3,
                    ),
                    ID::B => (
                        self.decks.0,
                        DeckState { content: *c, ..self.decks.1 },
                        self.decks.2,
                        self.decks.3,
                    ),
                    ID::C => (
                        self.decks.0,
                        self.decks.1,
                        DeckState { content: *c, ..self.decks.2 },
                        self.decks.3,
                    ),
                    ID::D => (
                        self.decks.0,
                        self.decks.1,
                        self.decks.2,
                        DeckState { content: *c, ..self.decks.3 },
                    ),
                },
                ..self
            },
            StateUpdate::DeckPlayState(id, p) => State {
                decks: match id {
                    ID::A => (
                        DeckState { play_state: p, ..self.decks.0 },
                        self.decks.1,
                        self.decks.2,
                        self.decks.3,
                    ),
                    ID::B => (
                        self.decks.0,
                        DeckState { play_state: p, ..self.decks.1 },
                        self.decks.2,
                        self.decks.3,
                    ),
                    ID::C => (
                        self.decks.0,
                        self.decks.1,
                        DeckState { play_state: p, ..self.decks.2 },
                        self.decks.3,
                    ),
                    ID::D => (
                        self.decks.0,
                        self.decks.1,
                        self.decks.2,
                        DeckState { play_state: p, ..self.decks.3 },
                    ),
                },
                ..self
            },
        }
    }

    /// Replaces the slot that `update` addresses, and nothing else.
    pub fn apply_update(&mut self, update: StateUpdate)
        ensures
            *final(self) == old(self).spec_apply(update),
    {
        match update {
            StateUpdate::Mixer(mixer) => {
                self.mixer = mixer;
            },
            StateUpdate::Channel(id, channel) => match id {
                ID::A => {
                    self.channels.0 = channel;
                },
                ID::B => {
                    self.channels.1 = channel;
                },
                ID::C => {
                    self.channels.2 = channel;
                },
                ID::D => {
                    self.channels.3 = channel;
                },
            },
            StateUpdate::DeckContent(id, deck_content) => match id {
                ID::A => {
                    self.decks.0.content = *deck_content;
                },
                ID::B => {
                    self.decks.1.content = *deck_content;
                },
                ID::C => {
                    self.decks.2.content = *deck_content;
                },
                ID::D => {
                    self.decks.3.content = *deck_content;
                },
            },
            StateUpdate::DeckPlayState(id, deck_play_state) => match id {
                ID::A => {
                    self.decks.0.play_state = deck_play_state;
                },
                ID::B => {
                    self.decks.1.play_state = deck_play_state;
                },
                ID::C => {
                    self.decks.2.play_state = deck_play_state;
                },
                ID::D => {
                    self.decks.3.play_state = deck_play_state;
                },
            },
        }
    }
}

impl State {
    /// Folds the flat wire layout (`mixer`, `channel0` to `channel3`,
    /// `deck0content` to `deck3content`, `deck0playstate` to
    /// `deck3playstate`) into the console state.
    pub fn from_flattened(
        mixer: MixerState,
        channel0: ChannelState,
        channel1: ChannelState,
        channel2: ChannelState,
        channel3: ChannelState,
        deck0content: DeckContentState,
        deck1content: DeckContentState,
        deck2content: DeckContentState,
        deck3content: DeckContentState,
        deck0playstate: DeckPlayState,
        deck1playstate: DeckPlayState,
        deck2playstate: DeckPlayState,
        deck3playstate: DeckPlayState,
    ) -> (r: State)
        ensures
            r.mixer == mixer,
            r.channels == (channel0, channel1, channel2, channel3),
            r.decks.0 == (DeckState { content: deck0content, play_state: deck0playstate }),
            r.decks.1 == (DeckState { content: deck1content, play_state: deck1playstate }),
            r.decks.2 == (DeckState { content: deck2content, play_state: deck2playstate }),
            r.decks.3 == (DeckState { content: deck3content, play_state: deck3playstate }),
    {
        State {
            mixer,
            channels: (channel0, channel1, channel2, channel3),
            decks: (
                DeckState { content: deck0content, play_state: deck0playstate },
                DeckState { content: deck1content, play_state: deck1playstate },
                DeckState { content: deck2content, play_state: deck2playstate },
                DeckState { content: deck3content, play_state: deck3playstate },
            ),
        }
    }
}

/// The slot that an update route addresses.
#[derive(Debug, Clone, Copy, PartialEq, Eq, Structural)]
pub enum UpdateTarget {
    Mixer,
    Channel(ID),
    DeckContent(ID),
    DeckPlayState(ID),
}

/// The slot addressed by the last segment of an update route: `mixer`,
/// `channel0` to `channel3`, `deck0content` to `deck3content`, or
/// `deck0playstate` to `deck3playstate`.
pub open spec fn update_route(name: Seq<char>) -> Option<UpdateTarget> {
    if name == "mixer"@ {
        Some(UpdateTarget::Mixer)
    } else if name == "channel0"@ {
        Some(UpdateTarget::Channel(ID::A))
    } else if name == "channel1"@ {
        Some(UpdateTarget::Channel(ID::B))
    } else if name == "channel2"@ {
        Some(UpdateTarget::Channel(ID::C))
    } else if name == "channel3"@ {
        Some(UpdateTarget::Channel(ID::D))
    } else if name == "deck0content"@ {
        Some(UpdateTarget::DeckContent(ID::A))
    } else if name == "deck1content"@ {
        Some(UpdateTarget::DeckContent(ID::B))
    } else if name == "deck2content"@ {
        Some(UpdateTarget::DeckContent(ID::C))
    } else if name == "deck3content"@ {
        Some(UpdateTarget::DeckContent(ID::D))
    } else if name == "deck0playstate"@ {
        Some(UpdateTarget::DeckPlayState(ID::A))
    } else if name == "deck1playstate"@ {
        Some(UpdateTarget::DeckPlayState(ID::B))
    } else if name == "deck2playstate"@ {
        Some(UpdateTarget::DeckPlayState(ID::C))
    } else if name == "deck3playstate"@ {
        Some(UpdateTarget::DeckPlayState(ID::D))
    } else {
        None
    }
}

fn is_route(name: &String, route: &str) -> (r: bool)
    ensures
        r == (name@ == route@),
{
    *name == route.to_owned()
}

/// Reads the last segment of an update route.
pub fn parse_update_route(name: &String) -> (r: Option<UpdateTarget>)
    ensures
        r == update_route(name@),
{
    if is_route(name, "mixer") {
        Some(UpdateTarget::Mixer)
    } else if is_route(name, "channel0") {
        Some(UpdateTarget::Channel(ID::A))
    } else if is_route(name, "channel1") {
        Some(UpdateTarget::Channel(ID::B))
    } else if is_route(name, "channel2") {
        Some(UpdateTarget::Channel(ID::C))
    } else if is_route(name, "channel3") {
        Some(UpdateTarget::Channel(ID::D))
    } else if is_route(name, "deck0content") {
        Some(UpdateTarget::DeckContent(ID::A))
    } else if is_route(name, "deck1content") {
        Some(UpdateTarget::DeckContent(ID::B))
    } else if is_route(name, "deck2content") {
        Some(UpdateTarget::DeckContent(ID::C))
    } else if is_route(name, "deck3content") {
        Some(UpdateTarget::DeckContent(ID::D))
    } else if is_route(name, "deck0playstate") {
        Some(UpdateTarget::DeckPlayState(ID::A))
    } else if is_route(name, "deck1playstate") {
        Some(UpdateTarget::DeckPlayState(ID::B))
    } else if is_route(name, "deck2playstate") {
        Some(UpdateTarget::DeckPlayState(ID::C))
    } else if is_route(name, "deck3playstate") {
        Some(UpdateTarget::DeckPlayState(ID::D))
    } else {
        None
    }
}

/// A command from the consumer to the server.
#[derive(Debug, Clone, Copy, PartialEq)]
pub enum AppMessage {
    /// Start a new session, with debug logging on or off.
    Reconnect { debug_logging: bool },
}

/// An event from the server to the consumer, in the order of application.
#[derive(Debug, PartialEq)]
pub enum ServerMessage {
    /// The server is up and listens for commands.
    Ready,
    /// A controller initialised the session with a full console state; the
    /// offset is the controller's clock minus the server's, in milliseconds.
    Connect { time_offset_ms: i64, initial_state: Box<State> },
    Update(StateUpdate),
    CoverImage { path: String, data: bytes::Bytes },
    Log(String),
}

/// The answer to a handshake.
#[derive(Debug, PartialEq)]
pub struct ConnectionResponse {
    pub session_id: String,
    pub debug_logging: bool,
}

/// A request to initialise a session with a full console state.
#[derive(Debug)]
pub struct InitializeRequest {
    pub session_id: String,
    pub timestamp: u64,
    pub state: State,
}

/// Writing a deck's content and reading it back gives exactly what was
/// written, and every other slot of the console keeps its value.
pub proof fn lemma_deck_content_round_trip(s: State, id: ID, content: DeckContentState)
    ensures
        ({
            let t = s.spec_apply(StateUpdate::DeckContent(id, Box::new(content)));
            &&& t.deck(id.spec_index()).content == content
            &&& t.deck(id.spec_index()).play_state == s.deck(id.spec_index()).play_state
            &&& t.mixer == s.mixer
            &&& t.channels == s.channels
            &&& forall|i: int| 0 <= i < 4 && i != id.spec_index() ==> #[trigger] t.deck(i) == s.deck(i)
        }),
{
}

} // verus!
