//! The session protocol of the ingestion server: handshake, initialisation,
//! queueing of early updates with rotation on overflow, and the bookkeeping
//! of the cover images that the controller is asked to upload.
use crate::model::{ConnectionResponse, InitializeRequest, ServerMessage, StateUpdate, ID};
use crate::paths::{
    contains_path, distinct_nonempty, distinct_paths, has_path, keep_listed, retain_listed,
};
use crate::trusted::{bytes_of, new_session_token};
use std::collections::HashMap;
use vstd::prelude::*;

verus! {

broadcast use vstd::std_specs::hash::group_hash_axioms;

/// Updates held before initialisation beyond this many rotate the session.
pub const MAX_QUEUE_LENGTH: usize = 20;

/// The session part of the server: its token, whether it was initialised,
/// the updates held until then, and the debug-logging flag.
pub struct SessionView {
    pub session_id: Seq<char>,
    pub initialized: bool,
    pub queue: Seq<StateUpdate>,
    pub debug_logging: bool,
}

/// The session after an update that carries the token `session_id`: held
/// while the session awaits initialisation, which rotates it to the token
/// `fresh` once more than `MAX_QUEUE_LENGTH` are held; an initialised
/// session passes the update on, and a foreign token changes nothing.
pub open spec fn session_after_update(
    v: SessionView,
    session_id: Seq<char>,
    update: StateUpdate,
    fresh: Seq<char>,
) -> SessionView {
    if session_id != v.session_id || v.initialized {
        v
    } else if v.queue.len() + 1 > MAX_QUEUE_LENGTH {
        SessionView { session_id: fresh, initialized: false, queue: Seq::empty(), ..v }
    } else {
        SessionView { queue: v.queue.push(update), ..v }
    }
}

/// Whether the session may go from `before` to `after` on an update that
/// carries `session_id`: as `session_after_update` says, and a rotation
/// brings a token other than the old one.
pub open spec fn update_step(
    before: SessionView,
    session_id: Seq<char>,
    update: StateUpdate,
    after: SessionView,
) -> bool {
    &&& after == session_after_update(before, session_id, update, after.session_id)
    &&& session_id == before.session_id && !before.initialized && before.queue.len() + 1
        > MAX_QUEUE_LENGTH ==> after.session_id != before.session_id
}

/// The four deck files as a list.
pub open spec fn file_list(files: (String, String, String, String)) -> Seq<String> {
    seq![files.0, files.1, files.2, files.3]
}

/// The paths of `required` that are neither loaded nor pending, in order.
pub open spec fn fresh_paths(required: Seq<String>, loaded: Seq<String>, pending: Seq<String>) -> Seq<
    String,
>
    decreases required.len(),
{
    if required.len() == 0 {
        Seq::empty()
    } else {
        let rest = fresh_paths(required.drop_last(), loaded, pending);
        let p = required.last();
        if !has_path(loaded, p@) && !has_path(pending, p@) {
            rest.push(p)
        } else {
            rest
        }
    }
}

/// The paths of `s` other than `p`, in order.
pub open spec fn without_path(s: Seq<String>, p: Seq<char>) -> Seq<String>
    decreases s.len(),
{
    if s.len() == 0 {
        Seq::empty()
    } else {
        let rest = without_path(s.drop_last(), p);
        if s.last()@ != p {
            rest.push(s.last())
        } else {
            rest
        }
    }
}

/// The deck files after `update`: a new deck content brings its file path.
pub open spec fn files_after(files: (String, String, String, String), update: StateUpdate) -> (
    String,
    String,
    String,
    String,
) {
    match update {
        StateUpdate::DeckContent(id, c) => match id {
            ID::A => (c.file_path, files.1, files.2, files.3),
            ID::B => (files.0, c.file_path, files.2, files.3),
            ID::C => (files.0, files.1, c.file_path, files.3),
            ID::D => (files.0, files.1, files.2, c.file_path),
        },
        _ => files,
    }
}

/// Image bookkeeping after the deck files became `files`: images no longer
/// required are forgotten, and required ones that are neither loaded nor
/// pending become pending and are announced.
pub open spec fn images_reconciled(
    old_loaded: Seq<String>,
    old_pending: Seq<String>,
    files: (String, String, String, String),
    loaded: Seq<String>,
    pending: Seq<String>,
    announced: Seq<String>,
) -> bool {
    let required = distinct_paths(file_list(files));
    let kept_loaded = keep_listed(old_loaded, required);
    let kept_pending = keep_listed(old_pending, required);
    let fresh = fresh_paths(required, kept_loaded, kept_pending);
    &&& loaded == kept_loaded
    &&& pending == kept_pending + fresh
    &&& announced == fresh
}

/// The answer of the server to one request, and what it passes on.
pub struct Handled {
    /// The session token, echoed to the controller.
    pub session_id: String,
    /// Events for the consumer, in order.
    pub events: Vec<ServerMessage>,
    /// Image paths to announce to cover subscribers, in order.
    pub new_images: Vec<String>,
}

/// The outcome of a cover upload.
#[derive(Debug, Clone, Copy, PartialEq, Eq, Structural)]
pub enum CoverStatus {
    /// The upload was empty.
    BadRequest,
    /// No loaded deck needs this image.
    Ignored,
    /// The image was taken.
    Accepted,
}

/// The state of the ingestion server; `S` is how a cover subscriber is
/// reached.
#[verifier::reject_recursive_types(S)]
pub struct TraktorServer<S> {
    pub debug_logging: bool,
    pub session_id: String,
    pub is_initialized: bool,
    pub queue: Vec<StateUpdate>,
    pub deck_files: (String, String, String, String),
    pub loaded_images: Vec<String>,
    pub pending_images: Vec<String>,
    pub cover_socket_id: usize,
    pub cover_sockets: HashMap<usize, S>,
}

/// The milliseconds by which the controller's clock `timestamp` is ahead of
/// the server's clock `now_ms`, within the range of `i64`; 0 when the
/// server's clock could not be read.
pub open spec fn spec_time_offset(timestamp: u64, now_ms: Option<u64>) -> int {
    match now_ms {
        None => 0,
        Some(now) => {
            let d = timestamp - now;
            if d > i64::MAX {
                i64::MAX as int
            } else if d < i64::MIN {
                i64::MIN as int
            } else {
                d
            }
        },
    }
}

pub fn time_offset(timestamp: u64, now_ms: Option<u64>) -> (r: i64)
    ensures
        r as int == spec_time_offset(timestamp, now_ms),
{
    match now_ms {
        None => 0,
        Some(now) => {
            let d: i128 = timestamp as i128 - now as i128;
            if d > i64::MAX as i128 {
                i64::MAX
            } else if d < i64::MIN as i128 {
                i64::MIN
            } else {
                d as i64
            }
        },
    }
}

/// A random token other than `old`: a new draw replaces one that equals
/// `old`, and should that equal it too, a `-` is appended to it.
fn fresh_token(old: &String) -> (r: String)
    ensures
        r@ != old@,
        r@.len() >= 36,
{
    let first = new_session_token();
    if first != *old {
        return first;
    }
    let mut second = new_session_token();
    if second != *old {
        return second;
    }
    second.append("-");
    proof {
        reveal_strlit("-");
    }
    second
}

/// The paths of `required` that are neither in `loaded` nor in `pending`.
fn find_fresh(required: &Vec<String>, loaded: &Vec<String>, pending: &Vec<String>) -> (r: Vec<
    String,
>)
    ensures
        r@ == fresh_paths(required@, loaded@, pending@),
{
    let mut r: Vec<String> = Vec::new();
    let mut i: usize = 0;
    while i < required.len()
        invariant
            i <= required@.len(),
            r@ == fresh_paths(required@.take(i as int), loaded@, pending@),
        decreases required@.len() - i,
    {
        proof {
            assert(required@.take(i + 1).drop_last() =~= required@.take(i as int));
        }
        if !contains_path(loaded, &required[i]) && !contains_path(pending, &required[i]) {
            r.push(required[i].clone());
        }
        i = i + 1;
    }
    assert(required@.take(required@.len() as int) =~= required@);
    r
}

/// The paths of `s` other than `p`.
fn remove_path(s: &Vec<String>, p: &String) -> (r: Vec<String>)
    ensures
        r@ == without_path(s@, p@),
{
    let mut r: Vec<String> = Vec::new();
    let mut i: usize = 0;
    while i < s.len()
        invariant
            i <= s@.len(),
            r@ == without_path(s@.take(i as int), p@),
        decreases s@.len() - i,
    {
        proof {
            assert(s@.take(i + 1).drop_last() =~= s@.take(i as int));
        }
        if s[i] != *p {
            r.push(s[i].clone());
        }
        i = i + 1;
    }
    assert(s@.take(s@.len() as int) =~= s@);
    r
}

impl<S> TraktorServer<S> {
    /// The session part of the server.
    pub open spec fn session(self) -> SessionView {
        SessionView {
            session_id: self.session_id@,
            initialized: self.is_initialized,
            queue: self.queue@,
            debug_logging: self.debug_logging,
        }
    }

    /// The images the decks need: their distinct non-empty file paths.
    pub open spec fn spec_required_images(self) -> Seq<String> {
        distinct_paths(file_list(self.deck_files))
    }

    /// A server with no session yet.
    pub fn new() -> (r: Self)
        ensures
            r.session_id@.len() == 0,
            !r.debug_logging,
            !r.is_initialized,
            r.queue@.len() == 0,
            r.deck_files.0@.len() == 0 && r.deck_files.1@.len() == 0,
            r.deck_files.2@.len() == 0 && r.deck_files.3@.len() == 0,
            r.loaded_images@.len() == 0,
            r.pending_images@.len() == 0,
            r.cover_socket_id == 0,
            r.cover_sockets@ == Map::<usize, S>::empty(),
    {
        TraktorServer {
            debug_logging: false,
            session_id: String::new(),
            is_initialized: false,
            queue: Vec::new(),
            deck_files: (String::new(), String::new(), String::new(), String::new()),
            loaded_images: Vec::new(),
            pending_images: Vec::new(),
            cover_socket_id: 0,
            cover_sockets: HashMap::new(),
        }
    }

    /// Whether a session exists; until then every route but the handshake
    /// answers "not found".
    pub fn is_started(&self) -> (r: bool)
        ensures
            r == (self.session_id@.len() > 0),
    {
        !self.session_id.as_str().is_empty()
    }

    /// Starts the session `session_id`: nothing initialised, nothing held.
    pub fn start_session(&mut self, debug_logging: bool, session_id: String)
        ensures
            final(self).session() == (SessionView {
                session_id: session_id@,
                initialized: false,
                queue: Seq::empty(),
                debug_logging,
            }),
            final(self).deck_files == old(self).deck_files,
            final(self).loaded_images == old(self).loaded_images,
            final(self).pending_images == old(self).pending_images,
            final(self).cover_socket_id == old(self).cover_socket_id,
            final(self).cover_sockets == old(self).cover_sockets,
    {
        self.session_id = session_id;
        self.debug_logging = debug_logging;
        self.is_initialized = false;
        self.queue.clear();
    }

    /// Starts a session under a new random token, one that differs from the
    /// current token.
    pub fn reconnect(&mut self, debug_logging: bool)
        ensures
            final(self).session() == (SessionView {
                session_id: final(self).session_id@,
                initialized: false,
                queue: Seq::empty(),
                debug_logging,
            }),
            final(self).session_id@ != old(self).session_id@,
            final(self).session_id@.len() >= 36,
            final(self).deck_files == old(self).deck_files,
            final(self).loaded_images == old(self).loaded_images,
            final(self).pending_images == old(self).pending_images,
            final(self).cover_socket_id == old(self).cover_socket_id,
            final(self).cover_sockets == old(self).cover_sockets,
    {
        let token = fresh_token(&self.session_id);
        self.start_session(debug_logging, token);
    }

    /// The images the decks need.
    pub fn get_required_images(&self) -> (r: Vec<String>)
        ensures
            r@ == self.spec_required_images(),
    {
        let files: Vec<String> = vec![
            self.deck_files.0.clone(),
            self.deck_files.1.clone(),
            self.deck_files.2.clone(),
            self.deck_files.3.clone(),
        ];
        proof {
            assert(files@ =~= file_list(self.deck_files));
        }
        distinct_nonempty(&files)
    }

    /// Brings the image bookkeeping in line with the deck files and returns
    /// the images to announce.
    pub fn on_update_deck_files(&mut self) -> (r: Vec<String>)
        ensures
            images_reconciled(
                old(self).loaded_images@,
                old(self).pending_images@,
                old(self).deck_files,
                final(self).loaded_images@,
                final(self).pending_images@,
                r@,
            ),
            final(self).session() == old(self).session(),
            final(self).deck_files == old(self).deck_files,
            final(self).cover_socket_id == old(self).cover_socket_id,
            final(self).cover_sockets == old(self).cover_sockets,
    {
        let required = self.get_required_images();
        self.loaded_images = retain_listed(&self.loaded_images, &required);
        let kept_pending = retain_listed(&self.pending_images, &required);
        let fresh = find_fresh(&required, &self.loaded_images, &kept_pending);
        let mut pending = kept_pending;
        let mut i: usize = 0;
        let ghost start = pending@;
        while i < fresh.len()
            invariant
                i <= fresh@.len(),
                pending@ == start + fresh@.take(i as int),
            decreases fresh@.len() - i,
        {
            proof {
                assert(start + fresh@.take(i + 1) =~= (start + fresh@.take(i as int)).push(
                    fresh@[i as int],
                ));
            }
            pending.push(fresh[i].clone());
            i = i + 1;
        }
        assert(fresh@.take(fresh@.len() as int) =~= fresh@);
        self.pending_images = pending;
        fresh
    }

    /// The handshake: the session token and the debug-logging flag.
    pub fn handle_connect(&self) -> (r: ConnectionResponse)
        ensures
            r.session_id == self.session_id,
            r.debug_logging == self.debug_logging,
    {
        ConnectionResponse {
            session_id: self.session_id.clone(),
            debug_logging: self.debug_logging,
        }
    }

    /// A log line for the consumer.
    pub fn handle_log(&self, msg: String) -> (r: ServerMessage)
        ensures
            r == ServerMessage::Log(msg),
    {
        ServerMessage::Log(msg)
    }

    /// A subscriber for cover requests detaches.
    pub fn handle_socket_disconnect(&mut self, id: usize)
        ensures
            final(self).cover_sockets@ == old(self).cover_sockets@.remove(id),
            final(self).session() == old(self).session(),
            final(self).cover_socket_id == old(self).cover_socket_id,
    {
        self.cover_sockets.remove(&id);
    }

    /// A subscriber for cover requests attaches under the first free number
    /// from the counter on; none is free when every number from the counter
    /// up to the largest one is taken.
    pub fn handle_socket_connect(&mut self, tx: S) -> (r: Option<usize>)
        ensures
            match r {
                Some(id) => {
                    &&& old(self).cover_socket_id <= id
                    &&& !old(self).cover_sockets@.contains_key(id)
                    &&& forall|k: usize|
                        old(self).cover_socket_id <= k < id ==> old(
                            self,
                        ).cover_sockets@.contains_key(k)
                    &&& final(self).cover_sockets@ == old(self).cover_sockets@.insert(id, tx)
                    &&& final(self).cover_socket_id == id
                },
                None => {
                    &&& forall|k: usize|
                        old(self).cover_socket_id <= k ==> old(
                            self,
                        ).cover_sockets@.contains_key(k)
                    &&& final(self).cover_sockets == old(self).cover_sockets
                    &&& final(self).cover_socket_id == old(self).cover_socket_id
                },
            },
            final(self).session() == old(self).session(),
    {
        let start = self.cover_socket_id;
        let mut id = start;
        while id < usize::MAX && self.cover_sockets.contains_key(&id)
            invariant
                start <= id,
                forall|k: usize| start <= k < id ==> self.cover_sockets@.contains_key(k),
            decreases usize::MAX - id,
        {
            id = id + 1;
        }
        if self.cover_sockets.contains_key(&id) {
            return None;
        }
        self.cover_sockets.insert(id, tx);
        self.cover_socket_id = id;
        Some(id)
    }

    /// Initialises the session when the request carries its token: the
    /// consumer receives the full state, with the clock offset against
    /// `now_ms` (the server's clock in milliseconds since the epoch, if it
    /// could be read), followed by the held updates in order of arrival.
    /// A foreign token changes nothing. The current token is echoed.
    pub fn handle_init(&mut self, request: InitializeRequest, now_ms: Option<u64>) -> (r: Handled)
        ensures
            r.session_id == final(self).session_id,
            request.session_id@ == old(self).session_id@ ==> {
                let files = (
                    request.state.decks.0.content.file_path,
                    request.state.decks.1.content.file_path,
                    request.state.decks.2.content.file_path,
                    request.state.decks.3.content.file_path,
                );
                &&& final(self).session() == (SessionView {
                    initialized: true,
                    queue: Seq::empty(),
                    ..old(self).session()
                })
                &&& final(self).deck_files == files
                &&& images_reconciled(
                    old(self).loaded_images@,
                    old(self).pending_images@,
                    files,
                    final(self).loaded_images@,
                    final(self).pending_images@,
                    r.new_images@,
                )
                &&& r.events@.len() == old(self).queue@.len() + 1
                &&& r.events@[0] == ServerMessage::Connect {
                    time_offset_ms: spec_time_offset(request.timestamp, now_ms) as i64,
                    initial_state: Box::new(request.state),
                }
                &&& forall|i: int|
                    0 <= i < old(self).queue@.len() ==> r.events@[i + 1] == ServerMessage::Update(
                        #[trigger] old(self).queue@[i],
                    )
                &&& final(self).cover_socket_id == old(self).cover_socket_id
                &&& final(self).cover_sockets == old(self).cover_sockets
            },
            request.session_id@ != old(self).session_id@ ==> {
                &&& *final(self) == *old(self)
                &&& r.events@.len() == 0
                &&& r.new_images@.len() == 0
            },
    {
        if request.session_id != self.session_id {
            return Handled {
                session_id: self.session_id.clone(),
                events: Vec::new(),
                new_images: Vec::new(),
            };
        }
        let time_offset_ms = time_offset(request.timestamp, now_ms);
        self.deck_files.0 = request.state.decks.0.content.file_path.clone();
        self.deck_files.1 = request.state.decks.1.content.file_path.clone();
        self.deck_files.2 = request.state.decks.2.content.file_path.clone();
        self.deck_files.3 = request.state.decks.3.content.file_path.clone();
        let new_images = self.on_update_deck_files();
        let mut events: Vec<ServerMessage> = Vec::new();
        events.push(ServerMessage::Connect { time_offset_ms, initial_state: Box::new(request.state) });
        let mut held: Vec<StateUpdate> = Vec::new();
        std::mem::swap(&mut held, &mut self.queue);
        let ghost first = events@[0];
        let mut i: usize = 0;
        while i < held.len()
            invariant
                i <= held@.len(),
                events@.len() == i + 1,
                events@[0] == first,
                forall|k: int| 0 <= k < i ==> events@[k + 1] == ServerMessage::Update(
                    #[trigger] held@[k],
                ),
            decreases held@.len() - i,
        {
            events.push(ServerMessage::Update(held[i].clone()));
            i = i + 1;
        }
        self.is_initialized = true;
        Handled { session_id: self.session_id.clone(), events, new_images }
    }

    /// Takes an update that carries the session's token: an initialised
    /// session passes it to the consumer, an uninitialised one holds it and
    /// rotates to a new token once more than `MAX_QUEUE_LENGTH` are held.
    /// A new deck content also updates the image bookkeeping. A foreign
    /// token changes nothing. The current token is echoed.
    pub fn handle_update(&mut self, session_id: &String, update: StateUpdate) -> (r: Handled)
        ensures
            update_step(old(self).session(), session_id@, update, final(self).session()),
            final(self).session_id@ != old(self).session_id@ ==> final(self).session_id@.len()
                >= 36,
            session_id@ == old(self).session_id@ && !old(self).is_initialized && old(
                self,
            ).queue@.len() + 1 > MAX_QUEUE_LENGTH ==> {
                &&& final(self).session_id@ != old(self).session_id@
                &&& final(self).session_id@.len() >= 36
                &&& final(self).queue@.len() == 0
                &&& !final(self).is_initialized
                &&& r.events@.len() == 0
            },
            r.session_id == final(self).session_id,
            final(self).cover_socket_id == old(self).cover_socket_id,
            final(self).cover_sockets == old(self).cover_sockets,
            session_id@ == old(self).session_id@ ==> {
                &&& final(self).deck_files == files_after(old(self).deck_files, update)
                &&& images_reconciled(
                    old(self).loaded_images@,
                    old(self).pending_images@,
                    files_after(old(self).deck_files, update),
                    final(self).loaded_images@,
                    final(self).pending_images@,
                    r.new_images@,
                )
                &&& r.events@ == (if old(self).is_initialized {
                    seq![ServerMessage::Update(update)]
                } else {
                    Seq::empty()
                })
            },
            session_id@ != old(self).session_id@ ==> {
                &&& *final(self) == *old(self)
                &&& r.events@.len() == 0
                &&& r.new_images@.len() == 0
            },
    {
        if *session_id != self.session_id {
            return Handled {
                session_id: self.session_id.clone(),
                events: Vec::new(),
                new_images: Vec::new(),
            };
        }
        match &update {
            StateUpdate::DeckContent(ID::A, content) => {
                self.deck_files.0 = content.file_path.clone();
            },
            StateUpdate::DeckContent(ID::B, content) => {
                self.deck_files.1 = content.file_path.clone();
            },
            StateUpdate::DeckContent(ID::C, content) => {
                self.deck_files.2 = content.file_path.clone();
            },
            StateUpdate::DeckContent(ID::D, content) => {
                self.deck_files.3 = content.file_path.clone();
            },
            _ => {},
        }
        let new_images = self.on_update_deck_files();
        let mut events: Vec<ServerMessage> = Vec::new();
        if self.is_initialized {
            events.push(ServerMessage::Update(update));
        } else {
            self.queue.push(update);
            if self.queue.len() > MAX_QUEUE_LENGTH {
                self.reconnect(self.debug_logging);
            }
        }
        Handled { session_id: self.session_id.clone(), events, new_images }
    }

    /// Takes an uploaded cover image: an empty upload is refused, one that no
    /// loaded deck needs is ignored; otherwise the image counts as loaded, is
    /// no longer pending, and goes to the consumer.
    pub fn handle_cover(&mut self, path: String, data: bytes::Bytes) -> (r: (
        CoverStatus,
        Option<ServerMessage>,
    ))
        ensures
            bytes_of(data).len() == 0 ==> r == (CoverStatus::BadRequest, None::<ServerMessage>)
                && *final(self) == *old(self),
            bytes_of(data).len() > 0 && !has_path(old(self).spec_required_images(), path@) ==> r
                == (CoverStatus::Ignored, None::<ServerMessage>) && *final(self) == *old(self),
            bytes_of(data).len() > 0 && has_path(old(self).spec_required_images(), path@) ==> {
                &&& r == (CoverStatus::Accepted, Some(ServerMessage::CoverImage { path, data }))
                &&& final(self).pending_images@ == without_path(old(self).pending_images@, path@)
                &&& final(self).loaded_images@ == (if has_path(old(self).loaded_images@, path@) {
                    old(self).loaded_images@
                } else {
                    old(self).loaded_images@.push(path)
                })
                &&& final(self).session() == old(self).session()
                &&& final(self).deck_files == old(self).deck_files
                &&& final(self).cover_socket_id == old(self).cover_socket_id
                &&& final(self).cover_sockets == old(self).cover_sockets
            },
    {
        if data.is_empty() {
            return (CoverStatus::BadRequest, None);
        }
        let required = self.get_required_images();
        if !contains_path(&required, &path) {
            return (CoverStatus::Ignored, None);
        }
        self.pending_images = remove_path(&self.pending_images, &path);
        if !contains_path(&self.loaded_images, &path) {
            self.loaded_images.push(path.clone());
        }
        (CoverStatus::Accepted, Some(ServerMessage::CoverImage { path, data }))
    }
}

/// Before initialisation, exactly the update after the first
/// `MAX_QUEUE_LENGTH` rotates the session. `states` are the sessions before
/// and after each of `updates`, all carrying the first session's token,
/// each step as `handle_update` guarantees it: the earlier updates are held
/// in order under the old token, the rotation brings a different token and
/// drops all that was held, and afterwards an update with the old token
/// changes nothing.
pub proof fn lemma_queue_rotation(states: Seq<SessionView>, updates: Seq<StateUpdate>)
    requires
        updates.len() == MAX_QUEUE_LENGTH + 1,
        states.len() == updates.len() + 1,
        !states[0].initialized,
        states[0].queue.len() == 0,
        forall|k: int|
            0 <= k < updates.len() ==> #[trigger] update_step(
                states[k],
                states[0].session_id,
                updates[k],
                states[k + 1],
            ),
    ensures
        forall|k: int|
            0 <= k <= MAX_QUEUE_LENGTH ==> #[trigger] states[k] == (SessionView {
                queue: updates.take(k),
                ..states[0]
            }),
        ({
            let rotated = states[MAX_QUEUE_LENGTH + 1];
            &&& rotated.session_id != states[0].session_id
            &&& !rotated.initialized
            &&& rotated.queue.len() == 0
            &&& rotated.debug_logging == states[0].debug_logging
            &&& forall|u: StateUpdate, after: SessionView|
                #[trigger] update_step(rotated, states[0].session_id, u, after) ==> after
                    == rotated
        }),
{
    let v = states[0];
    assert forall|k: int| 0 <= k <= MAX_QUEUE_LENGTH implies #[trigger] states[k] == (SessionView {
        queue: updates.take(k),
        ..v
    }) by {
        lemma_queue_holds(states, updates, k);
    }
    lemma_queue_holds(states, updates, MAX_QUEUE_LENGTH as int);
    assert(update_step(states[MAX_QUEUE_LENGTH as int], v.session_id, updates[MAX_QUEUE_LENGTH as int], states[MAX_QUEUE_LENGTH + 1]));
}

/// The first `k` updates, up to `MAX_QUEUE_LENGTH`, are held in order under
/// the first session's token.
proof fn lemma_queue_holds(states: Seq<SessionView>, updates: Seq<StateUpdate>, k: int)
    requires
        updates.len() == MAX_QUEUE_LENGTH + 1,
        states.len() == updates.len() + 1,
        !states[0].initialized,
        states[0].queue.len() == 0,
        forall|j: int|
            0 <= j < updates.len() ==> #[trigger] update_step(
                states[j],
                states[0].session_id,
                updates[j],
                states[j + 1],
            ),
        0 <= k <= MAX_QUEUE_LENGTH,
    ensures
        states[k] == (SessionView { queue: updates.take(k), ..states[0] }),
    decreases k,
{
    if k == 0 {
        assert(states[0].queue =~= updates.take(0));
    } else {
        lemma_queue_holds(states, updates, k - 1);
        assert(update_step(states[k - 1], states[0].session_id, updates[k - 1], states[k]));
        assert(updates.take(k - 1).push(updates[k - 1]) =~= updates.take(k));
    }
}

} // verus!
