use dashmap::DashMap;
use tokio::sync::broadcast::{Receiver, Sender};
use vstd::prelude::*;

use crate::domain::session::SessionStatus;
use crate::text::{contains_text, has_infix, has_prefix, starts_with_text};
use crate::utils::errors::Result;

verus! {

/// A lifecycle event of a session. Each carries the session id.
#[derive(Debug, Clone)]
pub enum SessionEvent {
    SessionCreated { session_id: String, room_name: String, access_token: String, livekit_url: String },
    MicroserviceJoined { session_id: String, service_id: String },
    ClientJoined { session_id: String, user_identity: String },
    SessionReady { session_id: String, all_participants_joined: bool },
    SessionStatusChanged { session_id: String, status: SessionStatus },
    Error { session_id: String, message: String },
}

/// A lifecycle event as mathematical values.
pub enum SessionEventView {
    SessionCreated { session_id: Seq<char>, room_name: Seq<char>, access_token: Seq<char>, livekit_url: Seq<char> },
    MicroserviceJoined { session_id: Seq<char>, service_id: Seq<char> },
    ClientJoined { session_id: Seq<char>, user_identity: Seq<char> },
    SessionReady { session_id: Seq<char>, all_participants_joined: bool },
    SessionStatusChanged { session_id: Seq<char>, status: SessionStatus },
    Error { session_id: Seq<char>, message: Seq<char> },
}

impl View for SessionEvent {
    type V = SessionEventView;

    open spec fn view(&self) -> SessionEventView {
        match self {
            SessionEvent::SessionCreated { session_id, room_name, access_token, livekit_url } =>
                SessionEventView::SessionCreated {
                    session_id: session_id@,
                    room_name: room_name@,
                    access_token: access_token@,
                    livekit_url: livekit_url@,
                },
            SessionEvent::MicroserviceJoined { session_id, service_id } =>
                SessionEventView::MicroserviceJoined { session_id: session_id@, service_id: service_id@ },
            SessionEvent::ClientJoined { session_id, user_identity } =>
                SessionEventView::ClientJoined { session_id: session_id@, user_identity: user_identity@ },
            SessionEvent::SessionReady { session_id, all_participants_joined } =>
                SessionEventView::SessionReady { session_id: session_id@, all_participants_joined: *all_participants_joined },
            SessionEvent::SessionStatusChanged { session_id, status } =>
                SessionEventView::SessionStatusChanged { session_id: session_id@, status: *status },
            SessionEvent::Error { session_id, message } =>
                SessionEventView::Error { session_id: session_id@, message: message@ },
        }
    }
}

pub open spec fn event_views(v: Seq<SessionEvent>) -> Seq<SessionEventView> {
    v.map_values(|e: SessionEvent| e@)
}

impl SessionEvent {
    /// The id of the session the event belongs to.
    pub fn session_id(&self) -> (r: &String)
        ensures
            r@ == self@.session_id(),
    {
        match self {
            SessionEvent::SessionCreated { session_id, .. } => session_id,
            SessionEvent::MicroserviceJoined { session_id, .. } => session_id,
            SessionEvent::ClientJoined { session_id, .. } => session_id,
            SessionEvent::SessionReady { session_id, .. } => session_id,
            SessionEvent::SessionStatusChanged { session_id, .. } => session_id,
            SessionEvent::Error { session_id, .. } => session_id,
        }
    }

    /// The tag under which the event is pushed to a remote caller.
    pub fn event_type(&self) -> (r: &'static str)
        ensures
            r@ == self@.event_type(),
    {
        proof {
            reveal_strlit("session_created");
            reveal_strlit("microservice_joined");
            reveal_strlit("client_joined");
            reveal_strlit("session_ready");
            reveal_strlit("status_changed");
            reveal_strlit("error");
        }
        match self {
            SessionEvent::SessionCreated { .. } => "session_created",
            SessionEvent::MicroserviceJoined { .. } => "microservice_joined",
            SessionEvent::ClientJoined { .. } => "client_joined",
            SessionEvent::SessionReady { .. } => "session_ready",
            SessionEvent::SessionStatusChanged { .. } => "status_changed",
            SessionEvent::Error { .. } => "error",
        }
    }

    /// A copy of the event with the same view.
    pub fn duplicate(&self) -> (r: SessionEvent)
        ensures
            r@ == self@,
    {
        match self {
            SessionEvent::SessionCreated { session_id, room_name, access_token, livekit_url } =>
                SessionEvent::SessionCreated {
                    session_id: session_id.clone(),
                    room_name: room_name.clone(),
                    access_token: access_token.clone(),
                    livekit_url: livekit_url.clone(),
                },
            SessionEvent::MicroserviceJoined { session_id, service_id } =>
                SessionEvent::MicroserviceJoined { session_id: session_id.clone(), service_id: service_id.clone() },
            SessionEvent::ClientJoined { session_id, user_identity } =>
                SessionEvent::ClientJoined { session_id: session_id.clone(), user_identity: user_identity.clone() },
            SessionEvent::SessionReady { session_id, all_participants_joined } =>
                SessionEvent::SessionReady { session_id: session_id.clone(), all_participants_joined: *all_participants_joined },
            SessionEvent::SessionStatusChanged { session_id, status } =>
                SessionEvent::SessionStatusChanged { session_id: session_id.clone(), status: *status },
            SessionEvent::Error { session_id, message } =>
                SessionEvent::Error { session_id: session_id.clone(), message: message.clone() },
        }
    }
}

impl SessionEventView {
    pub open spec fn session_id(self) -> Seq<char> {
        match self {
            SessionEventView::SessionCreated { session_id, .. } => session_id,
            SessionEventView::MicroserviceJoined { session_id, .. } => session_id,
            SessionEventView::ClientJoined { session_id, .. } => session_id,
            SessionEventView::SessionReady { session_id, .. } => session_id,
            SessionEventView::SessionStatusChanged { session_id, .. } => session_id,
            SessionEventView::Error { session_id, .. } => session_id,
        }
    }

    pub open spec fn event_type(self) -> Seq<char> {
        match self {
            SessionEventView::SessionCreated { .. } => "session_created"@,
            SessionEventView::MicroserviceJoined { .. } => "microservice_joined"@,
            SessionEventView::ClientJoined { .. } => "client_joined"@,
            SessionEventView::SessionReady { .. } => "session_ready"@,
            SessionEventView::SessionStatusChanged { .. } => "status_changed"@,
            SessionEventView::Error { .. } => "error"@,
        }
    }
}

/// Capacity of the global channel.
pub const GLOBAL_CAPACITY: usize = 1000;

/// Capacity of each session's channel.
pub const SESSION_CAPACITY: usize = 100;

/// Identities that start with this are the engine's own hidden participants.
pub const MANAGER_PREFIX: &'static str = "session-manager-";

/// tokio's broadcast sender: a handle that fans values out to every receiver
/// subscribed at the time of sending.
#[verifier::external_type_specification]
#[verifier::external_body]
#[verifier::reject_recursive_types(T)]
pub struct ExSender<T>(Sender<T>);

/// tokio's broadcast receiver.
#[verifier::external_type_specification]
#[verifier::external_body]
#[verifier::reject_recursive_types(T)]
pub struct ExReceiver<T>(Receiver<T>);

/// What the broadcast channel behind a sender has carried: every event
/// handed to its `send`, in order, since the channel was opened. tokio
/// delivers each one to every receiver subscribed at that moment that keeps
/// up; a receiver that falls behind is told how many it missed.
pub uninterp spec fn carried(s: Sender<SessionEvent>) -> Seq<SessionEventView>;

/// How many events the channel of a receiver had carried when the receiver
/// subscribed: it receives the ones carried after those.
pub uninterp spec fn receiver_start(r: Receiver<SessionEvent>) -> nat;

/// Relies on tokio::sync::broadcast::channel, which panics on a capacity of
/// zero or above `usize::MAX / 2`: a new channel has carried nothing, and its
/// first receiver receives from the start.
#[verifier::external_body]
fn open_channel(capacity: usize) -> (r: (Sender<SessionEvent>, Receiver<SessionEvent>))
    requires
        0 < capacity <= usize::MAX / 2,
    ensures
        carried(r.0) == Seq::<SessionEventView>::empty(),
        receiver_start(r.1) == 0,
{
    tokio::sync::broadcast::channel(capacity)
}

/// Relies on broadcast::Sender::send: the event is handed to the channel,
/// which passes it to every receiver subscribed now; the result says whether
/// there was one. A slow receiver misses events rather than blocking the
/// sender.
#[verifier::external_body]
fn channel_send(s: &mut Sender<SessionEvent>, event: SessionEvent) -> (r: bool)
    ensures
        carried(*final(s)) == carried(*old(s)).push(event@),
{
    s.send(event).is_ok()
}

/// Relies on broadcast::Sender::subscribe: a receiver of what the channel
/// carries from now on.
#[verifier::external_body]
fn channel_subscribe(s: &Sender<SessionEvent>) -> (r: Receiver<SessionEvent>)
    ensures
        receiver_start(r) == carried(*s).len(),
{
    s.subscribe()
}

/// What channels have carried, by session id.
pub type ChannelLog = Map<Seq<char>, Seq<SessionEventView>>;

/// What each session channel in a table of session channels has carried,
/// by session id.
pub uninterp spec fn channel_log(m: DashMap<String, Sender<SessionEvent>>) -> ChannelLog;

/// Relies on DashMap::new: a new map is empty.
#[verifier::external_body]
fn channels_new() -> (r: DashMap<String, Sender<SessionEvent>>)
    ensures
        channel_log(r) == ChannelLog::empty(),
{
    DashMap::new()
}

/// Relies on DashMap::insert: afterwards `key` holds the channel of `s`,
/// replacing any.
#[verifier::external_body]
fn channels_insert(m: &mut DashMap<String, Sender<SessionEvent>>, key: String, s: Sender<SessionEvent>)
    ensures
        channel_log(*final(m)) == channel_log(*old(m)).insert(key@, carried(s)),
{
    m.insert(key, s);
}

/// Relies on DashMap::remove: afterwards `key` has no channel; the removed
/// sender is dropped.
#[verifier::external_body]
fn channels_remove(m: &mut DashMap<String, Sender<SessionEvent>>, key: &str)
    ensures
        channel_log(*final(m)) == channel_log(*old(m)).remove(key@),
{
    m.remove(key);
}

/// Relies on DashMap::get: a handle on the channel under `key`, if any; a
/// cloned sender shares the channel.
#[verifier::external_body]
fn channels_get(m: &DashMap<String, Sender<SessionEvent>>, key: &str) -> (r: Option<Sender<SessionEvent>>)
    ensures
        r is Some == channel_log(*m).contains_key(key@),
        r is Some ==> carried(r->0) == channel_log(*m)[key@],
{
    m.get(key).as_deref().cloned()
}

/// Relies on DashMap::get and broadcast::Sender::send: the event is handed
/// to the channel under `key`, which must exist.
#[verifier::external_body]
fn channels_send(m: &mut DashMap<String, Sender<SessionEvent>>, key: &str, event: SessionEvent) -> (r: bool)
    requires
        channel_log(*old(m)).contains_key(key@),
    ensures
        channel_log(*final(m)) == channel_log(*old(m)).insert(key@, channel_log(*old(m))[key@].push(event@)),
{
    m.get(key).expect("the channel exists").send(event).is_ok()
}

/// What each channel of a bus has carried.
pub struct BusView {
    pub global: Seq<SessionEventView>,
    pub sessions: Map<Seq<char>, Seq<SessionEventView>>,
}

impl BusView {
    /// The bus after `event` was published to session `session_id`: the
    /// session's channel, opened if need be, and the global channel each
    /// carry it.
    pub open spec fn after_publish(self, session_id: Seq<char>, event: SessionEventView) -> BusView {
        let log = if self.sessions.contains_key(session_id) { self.sessions[session_id] } else { Seq::empty() };
        BusView {
            global: self.global.push(event),
            sessions: self.sessions.insert(session_id, log.push(event)),
        }
    }
}

/// In-process publish/subscribe of lifecycle events: one channel per session
/// and one global channel that sees every event. A subscriber that falls
/// behind is told how many events it missed; publishers never wait.
pub struct EventBus {
    global_sender: Sender<SessionEvent>,
    session_senders: DashMap<String, Sender<SessionEvent>>,
}

impl View for EventBus {
    type V = BusView;

    closed spec fn view(&self) -> BusView {
        BusView { global: carried(self.global_sender), sessions: channel_log(self.session_senders) }
    }
}

impl EventBus {
    pub fn new() -> (r: Self)
        ensures
            r@.global == Seq::<SessionEventView>::empty(),
            r@.sessions == ChannelLog::empty(),
    {
        let (global_sender, _unused) = open_channel(GLOBAL_CAPACITY);
        EventBus { global_sender, session_senders: channels_new() }
    }

    /// Opens a fresh channel for `session_id`, replacing any earlier one, and
    /// returns a receiver of it.
    pub fn create_session_stream(&mut self, session_id: String) -> (r: Receiver<SessionEvent>)
        ensures
            final(self)@.global == old(self)@.global,
            final(self)@.sessions == old(self)@.sessions.insert(session_id@, Seq::empty()),
            receiver_start(r) == 0,
    {
        let (sender, receiver) = open_channel(SESSION_CAPACITY);
        channels_insert(&mut self.session_senders, session_id, sender);
        receiver
    }

    /// A receiver of the channel of `session_id`, if the session has one; it
    /// receives what the channel carries from now on.
    pub fn get_session_stream(&self, session_id: &str) -> (r: Option<Receiver<SessionEvent>>)
        ensures
            r is Some == self@.sessions.contains_key(session_id@),
            r is Some ==> receiver_start(r->0) == self@.sessions[session_id@].len(),
    {
        match channels_get(&self.session_senders, session_id) {
            Some(sender) => Some(channel_subscribe(&sender)),
            None => None,
        }
    }

    /// A receiver of the channel of `session_id`, opened if the session has
    /// none; it receives what the channel carries from now on.
    pub fn subscribe_session(&mut self, session_id: &str) -> (r: Receiver<SessionEvent>)
        ensures
            final(self)@.global == old(self)@.global,
            final(self)@.sessions.contains_key(session_id@),
            old(self)@.sessions.contains_key(session_id@) ==> final(self)@ == old(self)@,
            !old(self)@.sessions.contains_key(session_id@) ==> final(self)@.sessions == old(self)@.sessions.insert(session_id@, Seq::empty()),
            receiver_start(r) == final(self)@.sessions[session_id@].len(),
    {
        match channels_get(&self.session_senders, session_id) {
            Some(sender) => channel_subscribe(&sender),
            None => self.create_session_stream(session_id.to_owned()),
        }
    }

    /// Hands `event` to the channel of `session_id`, opening it if need be,
    /// and to the global channel.
    pub fn publish_to_session(&mut self, session_id: &str, event: SessionEvent)
        ensures
            final(self)@ == old(self)@.after_publish(session_id@, event@),
    {
        let ghost pre = self@;
        if channels_get(&self.session_senders, session_id).is_none() {
            let (sender, _unused) = open_channel(SESSION_CAPACITY);
            channels_insert(&mut self.session_senders, session_id.to_owned(), sender);
        }
        let _ = channels_send(&mut self.session_senders, session_id, event.duplicate());
        let _ = channel_send(&mut self.global_sender, event);
        assert(self@.sessions =~= pre.after_publish(session_id@, event@).sessions);
    }

    /// Hands `event` to the global channel only.
    pub fn publish_global(&mut self, event: SessionEvent)
        ensures
            final(self)@.global == old(self)@.global.push(event@),
            final(self)@.sessions == old(self)@.sessions,
    {
        let _ = channel_send(&mut self.global_sender, event);
    }

    /// Publishes the arrival of `participant_identity` in the room of
    /// `session_id`, classified by its name: the engine's own identities are
    /// ignored; one that names a user, or does not name a service, is a
    /// client; any other is a worker.
    pub fn publish_participant_joined(&mut self, session_id: &str, participant_identity: &str) -> (r: Result<()>)
        ensures
            r is Ok,
            has_prefix(participant_identity@, MANAGER_PREFIX@) ==> final(self)@ == old(self)@,
            !has_prefix(participant_identity@, MANAGER_PREFIX@) ==> final(self)@ == old(self)@.after_publish(
                session_id@,
                if has_infix(participant_identity@, "user"@) || !has_infix(participant_identity@, "service"@) {
                    SessionEventView::ClientJoined { session_id: session_id@, user_identity: participant_identity@ }
                } else {
                    SessionEventView::MicroserviceJoined { session_id: session_id@, service_id: participant_identity@ }
                },
            ),
    {
        if starts_with_text(participant_identity, MANAGER_PREFIX) {
            return Ok(());
        }
        let event = if contains_text(participant_identity, "user") || !contains_text(participant_identity, "service") {
            SessionEvent::ClientJoined { session_id: session_id.to_owned(), user_identity: participant_identity.to_owned() }
        } else {
            SessionEvent::MicroserviceJoined { session_id: session_id.to_owned(), service_id: participant_identity.to_owned() }
        };
        self.publish_to_session(session_id, event);
        Ok(())
    }

    /// A departure is not published.
    pub fn publish_participant_left(&self, session_id: &str, participant_identity: &str) -> (r: Result<()>)
        ensures
            r is Ok,
    {
        Ok(())
    }

    /// Closes the channel of `session_id`: its receivers then read "closed".
    pub fn cleanup_session(&mut self, session_id: &str)
        ensures
            final(self)@.global == old(self)@.global,
            final(self)@.sessions == old(self)@.sessions.remove(session_id@),
    {
        channels_remove(&mut self.session_senders, session_id);
    }

    /// A receiver of every event the global channel carries from now on.
    pub fn subscribe_global(&self) -> (r: Receiver<SessionEvent>)
        ensures
            receiver_start(r) == self@.global.len(),
    {
        channel_subscribe(&self.global_sender)
    }
}

/// Every event published to a session also goes to the global channel: a
/// global receiver that subscribed before the publish (so that it receives
/// the events the global channel carries from position `start` on, with
/// `start` at most what it had carried) receives the event, after the ones
/// carried before it; a receiver of the session's channel that subscribed
/// before receives it as well.
pub proof fn lemma_publish_reaches_global(bus: BusView, session_id: Seq<char>, event: SessionEventView, start: nat, session_start: nat)
    requires
        start <= bus.global.len(),
        bus.sessions.contains_key(session_id) ==> session_start <= bus.sessions[session_id].len(),
        !bus.sessions.contains_key(session_id) ==> session_start == 0,
    ensures
        ({
            let after = bus.after_publish(session_id, event);
            &&& after.global.len() == bus.global.len() + 1
            &&& start <= after.global.len() - 1
            &&& after.global[after.global.len() - 1] == event
            &&& after.global.subrange(0, bus.global.len() as int) == bus.global
            &&& after.sessions.contains_key(session_id)
            &&& session_start <= after.sessions[session_id].len() - 1
            &&& after.sessions[session_id].last() == event
        }),
{
    let after = bus.after_publish(session_id, event);
    assert(after.global.subrange(0, bus.global.len() as int) =~= bus.global);
}

} // verus!
