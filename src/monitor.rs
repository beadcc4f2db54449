use vstd::prelude::*;

use crate::domain::session::{Session, SessionStatus, SessionView, ids_of, lemma_mark_idempotent, lemma_ready_iff_all_observed};
use crate::events::{SessionEvent, SessionEventView, event_views};
use crate::seq_lemmas::{lemma_push_new, lemma_take_next_to_set, lemma_to_set_contains};

verus! {

/// Seconds of silence after which a connected client ends the session.
pub const CLIENT_TIMEOUT_SECS: u64 = 300;

/// Seconds of silence after which a worker counts as gone and is invited again.
pub const WORKER_TIMEOUT_SECS: u64 = 60;

/// Seconds between two timer ticks of the monitor.
pub const RETRY_INTERVAL_SECS: u64 = 30;

/// The timeouts a monitor works with, in seconds.
#[derive(Debug, Clone, Copy)]
pub struct MonitorConfig {
    pub client_timeout_secs: u64,
    pub worker_timeout_secs: u64,
    pub retry_interval_secs: u64,
}

impl MonitorConfig {
    pub fn standard() -> (r: MonitorConfig)
        ensures
            r.client_timeout_secs == CLIENT_TIMEOUT_SECS,
            r.worker_timeout_secs == WORKER_TIMEOUT_SECS,
            r.retry_interval_secs == RETRY_INTERVAL_SECS,
    {
        MonitorConfig {
            client_timeout_secs: CLIENT_TIMEOUT_SECS,
            worker_timeout_secs: WORKER_TIMEOUT_SECS,
            retry_interval_secs: RETRY_INTERVAL_SECS,
        }
    }
}

/// What the monitor reacts to: an event of the room, or a tick of its timer.
#[derive(Debug)]
pub enum MonitorEvent {
    ParticipantJoined(String),
    ParticipantLeft(String),
    OtherRoomEvent,
    StreamClosed,
    TimerTick,
}

pub enum MonitorEventView {
    ParticipantJoined(Seq<char>),
    ParticipantLeft(Seq<char>),
    OtherRoomEvent,
    StreamClosed,
    TimerTick,
}

impl View for MonitorEvent {
    type V = MonitorEventView;

    open spec fn view(&self) -> MonitorEventView {
        match self {
            MonitorEvent::ParticipantJoined(id) => MonitorEventView::ParticipantJoined(id@),
            MonitorEvent::ParticipantLeft(id) => MonitorEventView::ParticipantLeft(id@),
            MonitorEvent::OtherRoomEvent => MonitorEventView::OtherRoomEvent,
            MonitorEvent::StreamClosed => MonitorEventView::StreamClosed,
            MonitorEvent::TimerTick => MonitorEventView::TimerTick,
        }
    }
}

/// What the monitor knows of one expected worker. `last_seen` is in seconds
/// on the monitor's clock; `None` until the worker is first seen.
#[derive(Debug)]
pub struct WorkerTrack {
    pub service_id: String,
    pub joined: bool,
    pub last_seen: Option<u64>,
}

pub struct TrackView {
    pub id: Seq<char>,
    pub joined: bool,
    pub last_seen: Option<u64>,
}

impl View for WorkerTrack {
    type V = TrackView;

    open spec fn view(&self) -> TrackView {
        TrackView { id: self.service_id@, joined: self.joined, last_seen: self.last_seen }
    }
}

pub open spec fn track_views(v: Seq<WorkerTrack>) -> Seq<TrackView> {
    v.map_values(|t: WorkerTrack| t@)
}

pub open spec fn track_ids(v: Seq<TrackView>) -> Seq<Seq<char>> {
    v.map_values(|t: TrackView| t.id)
}

/// Seconds from `last` to `now`; zero if `now` is not later.
pub open spec fn age(last: u64, now: u64) -> nat {
    if now >= last {
        (now - last) as nat
    } else {
        0
    }
}

/// The worker was seen, but not within the last `timeout` seconds.
pub open spec fn expired(t: TrackView, now: u64, timeout: u64) -> bool {
    match t.last_seen {
        Some(seen) => age(seen, now) > timeout,
        None => false,
    }
}

/// The worker is gone past its timeout, or has never shown up.
pub open spec fn needs_retry(t: TrackView, now: u64, timeout: u64) -> bool {
    expired(t, now, timeout) || (t.last_seen is None && !t.joined)
}

pub open spec fn joined_track(t: TrackView, id: Seq<char>, now: u64) -> TrackView {
    if t.id == id {
        TrackView { joined: true, last_seen: Some(now), ..t }
    } else {
        t
    }
}

pub open spec fn heartbeat_track(t: TrackView, now: u64) -> TrackView {
    if t.joined {
        TrackView { last_seen: Some(now), ..t }
    } else {
        t
    }
}

pub open spec fn tick_track(t: TrackView, now: u64, timeout: u64) -> TrackView {
    if expired(t, now, timeout) {
        TrackView { joined: false, ..t }
    } else {
        t
    }
}

/// The ids of the tracks that need a new join instruction, in order.
pub open spec fn retry_ids(tracks: Seq<TrackView>, now: u64, timeout: u64) -> Seq<Seq<char>>
    decreases tracks.len(),
{
    if tracks.len() == 0 {
        Seq::empty()
    } else {
        let rest = retry_ids(tracks.drop_last(), now, timeout);
        if needs_retry(tracks.last(), now, timeout) {
            rest.push(tracks.last().id)
        } else {
            rest
        }
    }
}

/// The state of a lifecycle monitor as mathematical values.
pub struct MonitorView {
    pub session: SessionView,
    pub manager: Seq<char>,
    pub tracks: Seq<TrackView>,
    pub client_connected: bool,
    pub client_last_seen: u64,
    pub stopped: bool,
    pub client_timeout: u64,
    pub worker_timeout: u64,
}

/// What one step hands to the task that runs the monitor: events to publish,
/// workers to invite again, and whether to stop.
pub struct StepView {
    pub events: Seq<SessionEventView>,
    pub retry: Seq<Seq<char>>,
    pub stop: bool,
}

pub open spec fn quiet_step(stop: bool) -> StepView {
    StepView { events: Seq::empty(), retry: Seq::empty(), stop }
}

impl MonitorView {
    pub open spec fn expects(self, id: Seq<char>) -> bool {
        track_ids(self.tracks).contains(id)
    }

    /// Whether `id` is a worker that is not in the joined set.
    pub open spec fn newly_joins(self, id: Seq<char>) -> bool {
        exists|i: int| 0 <= i < self.tracks.len() && self.tracks[i].id == id && !self.tracks[i].joined
    }

    pub open spec fn joined_set(self) -> Set<Seq<char>> {
        Set::new(|id: Seq<char>| exists|i: int| 0 <= i < self.tracks.len() && self.tracks[i].id == id && self.tracks[i].joined)
    }

    /// Whether `id` is taken for the human client: neither a worker nor the
    /// monitor's own hidden identity.
    pub open spec fn is_client(self, id: Seq<char>) -> bool {
        !self.expects(id) && id != self.manager
    }

    pub open spec fn client_timed_out(self, now: u64) -> bool {
        self.client_connected && age(self.client_last_seen, now) > self.client_timeout
    }

    pub open spec fn on_joined(self, id: Seq<char>, now: u64) -> (MonitorView, StepView) {
        if self.expects(id) {
            let session = self.session.after_mark(id);
            let joined_ev = if self.newly_joins(id) {
                seq![SessionEventView::MicroserviceJoined { session_id: self.session.id, service_id: id }]
            } else {
                Seq::empty()
            };
            let ready_ev = if session.status == SessionStatus::Ready && self.session.status != SessionStatus::Ready {
                seq![SessionEventView::SessionReady { session_id: self.session.id, all_participants_joined: true }]
            } else {
                Seq::empty()
            };
            (
                MonitorView {
                    session,
                    tracks: self.tracks.map_values(|t: TrackView| joined_track(t, id, now)),
                    ..self
                },
                StepView { events: joined_ev + ready_ev, retry: Seq::empty(), stop: false },
            )
        } else if self.is_client(id) {
            let session = if self.session.status == SessionStatus::Ready {
                self.session.after_status(SessionStatus::Active)
            } else {
                self.session
            };
            (
                MonitorView { session, client_connected: true, client_last_seen: now, ..self },
                StepView {
                    events: seq![SessionEventView::ClientJoined { session_id: self.session.id, user_identity: id }],
                    retry: Seq::empty(),
                    stop: false,
                },
            )
        } else {
            (self, quiet_step(false))
        }
    }

    pub open spec fn on_left(self, id: Seq<char>) -> (MonitorView, StepView) {
        if self.is_client(id) {
            (MonitorView { client_connected: false, ..self }, quiet_step(false))
        } else {
            (self, quiet_step(false))
        }
    }

    pub open spec fn on_heartbeat(self, now: u64) -> (MonitorView, StepView) {
        (
            MonitorView {
                tracks: self.tracks.map_values(|t: TrackView| heartbeat_track(t, now)),
                client_last_seen: now,
                ..self
            },
            quiet_step(false),
        )
    }

    pub open spec fn ending(self, status: SessionStatus) -> (MonitorView, StepView) {
        (
            MonitorView { session: self.session.after_status(status), stopped: true, ..self },
            StepView {
                events: seq![SessionEventView::SessionStatusChanged { session_id: self.session.id, status }],
                retry: Seq::empty(),
                stop: true,
            },
        )
    }

    pub open spec fn on_tick(self, now: u64) -> (MonitorView, StepView) {
        if self.client_timed_out(now) {
            self.ending(SessionStatus::Terminating)
        } else {
            (
                MonitorView {
                    tracks: self.tracks.map_values(|t: TrackView| tick_track(t, now, self.worker_timeout)),
                    ..self
                },
                StepView {
                    events: Seq::empty(),
                    retry: retry_ids(self.tracks, now, self.worker_timeout),
                    stop: false,
                },
            )
        }
    }

    /// One step of the monitor: the new state and what to do.
    pub open spec fn next(self, ev: MonitorEventView, now: u64) -> (MonitorView, StepView) {
        if self.stopped {
            (self, quiet_step(true))
        } else {
            match ev {
                MonitorEventView::ParticipantJoined(id) => self.on_joined(id, now),
                MonitorEventView::ParticipantLeft(id) => self.on_left(id),
                MonitorEventView::OtherRoomEvent => self.on_heartbeat(now),
                MonitorEventView::StreamClosed => self.ending(SessionStatus::Terminated),
                MonitorEventView::TimerTick => self.on_tick(now),
            }
        }
    }
}

/// Output of one monitor step.
#[derive(Debug)]
pub struct MonitorStep {
    pub events: Vec<SessionEvent>,
    pub retry: Vec<String>,
    pub stop: bool,
}

impl View for MonitorStep {
    type V = StepView;

    open spec fn view(&self) -> StepView {
        StepView {
            events: event_views(self.events@),
            retry: self.retry@.map_values(|s: String| s@),
            stop: self.stop,
        }
    }
}

/// The per-session lifecycle monitor: it watches the room, tracks which
/// workers and whether the client are present, and drives the session's
/// status. It does no I/O: the task that runs it feeds it room events and
/// timer ticks with the time in seconds, and carries out each step.
#[derive(Debug)]
pub struct LifecycleMonitor {
    pub session: Session,
    pub manager_identity: String,
    pub workers: Vec<WorkerTrack>,
    pub client_connected: bool,
    pub client_last_seen: u64,
    pub stopped: bool,
    pub config: MonitorConfig,
}

impl View for LifecycleMonitor {
    type V = MonitorView;

    open spec fn view(&self) -> MonitorView {
        MonitorView {
            session: self.session@,
            manager: self.manager_identity@,
            tracks: track_views(self.workers@),
            client_connected: self.client_connected,
            client_last_seen: self.client_last_seen,
            stopped: self.stopped,
            client_timeout: self.config.client_timeout_secs,
            worker_timeout: self.config.worker_timeout_secs,
        }
    }
}

/// A map over tracks that keeps each track's id keeps the list of ids.
proof fn lemma_map_keeps_ids(tracks: Seq<TrackView>, f: spec_fn(TrackView) -> TrackView)
    requires
        forall|t: TrackView| #[trigger] f(t).id == t.id,
    ensures
        track_ids(tracks.map_values(f)) == track_ids(tracks),
{
    assert(track_ids(tracks.map_values(f)) =~= track_ids(tracks));
}

impl WorkerTrack {
    fn with_state(&self, joined: bool, last_seen: Option<u64>) -> (r: WorkerTrack)
        ensures
            r@ == (TrackView { id: self@.id, joined, last_seen }),
    {
        WorkerTrack { service_id: self.service_id.clone(), joined, last_seen }
    }
}

impl LifecycleMonitor {
    /// The session holds a valid state, and the tracks hold each required
    /// worker id once.
    pub open spec fn wf(&self) -> bool {
        &&& self.session.wf()
        &&& track_ids(self@.tracks).no_duplicates()
        &&& track_ids(self@.tracks).to_set() == self@.session.required_ids()
    }

    /// A monitor for `session`, started at time `now` (seconds), with the
    /// monitor's own hidden identity `manager_identity`. The expected workers
    /// are the session's required workers; none has joined yet.
    pub fn new(session: Session, manager_identity: String, config: MonitorConfig, now: u64) -> (r: LifecycleMonitor)
        requires
            session.wf(),
        ensures
            r.wf(),
            r@.session == session@,
            r@.manager == manager_identity@,
            track_ids(r@.tracks).to_set() == session@.required_ids(),
            forall|i: int| 0 <= i < r@.tracks.len() ==> !(#[trigger] r@.tracks[i]).joined && r@.tracks[i].last_seen is None,
            !r@.client_connected,
            r@.client_last_seen == now,
            !r@.stopped,
            r@.client_timeout == config.client_timeout_secs,
            r@.worker_timeout == config.worker_timeout_secs,
    {
        let mut workers: Vec<WorkerTrack> = Vec::new();
        let ghost reg = ids_of(session@.registered);
        let mut i: usize = 0;
        while i < session.registered_microservices.len()
            invariant
                i <= session.registered_microservices.len(),
                reg == ids_of(session@.registered),
                track_ids(track_views(workers@)).no_duplicates(),
                track_ids(track_views(workers@)).to_set() == reg.take(i as int).to_set(),
                forall|k: int| 0 <= k < workers@.len() ==> !(#[trigger] workers@[k]).joined && workers@[k].last_seen is None,
            decreases session.registered_microservices.len() - i,
        {
            let id = &session.registered_microservices[i].service_id;
            let mut seen = false;
            let mut j: usize = 0;
            while j < workers.len()
                invariant
                    j <= workers.len(),
                    seen == exists|k: int| 0 <= k < j && workers@[k].service_id@ == id@,
                decreases workers.len() - j,
            {
                if workers[j].service_id.eq(id) {
                    seen = true;
                }
                j += 1;
            }
            let ghost before = track_ids(track_views(workers@));
            assert(reg.take(i as int + 1) =~= reg.take(i as int).push(id@));
            assert(reg[i as int] == id@);
            proof {
                lemma_take_next_to_set(reg, i as int);
            }
            if !seen {
                workers.push(WorkerTrack { service_id: id.clone(), joined: false, last_seen: None });
                let ghost after = track_ids(track_views(workers@));
                assert(after =~= before.push(id@));
                assert(!before.contains(id@)) by {
                    if before.contains(id@) {
                        let k = choose|k: int| 0 <= k < before.len() && before[k] == id@;
                        assert(workers@[k].service_id@ == id@);
                    }
                }
                proof {
                    lemma_push_new(before, id@);
                }
            } else {
                proof {
                    let k0 = choose|k: int| 0 <= k < workers@.len() && workers@[k].service_id@ == id@;
                    assert(before[k0] == id@);
                    lemma_to_set_contains(before, id@);
                    assert(reg.take(i as int).to_set().insert(id@) =~= reg.take(i as int).to_set());
                }
            }
            i += 1;
        }
        assert(reg.take(i as int) =~= reg);
        LifecycleMonitor {
            session,
            manager_identity,
            workers,
            client_connected: false,
            client_last_seen: now,
            stopped: false,
            config,
        }
    }

    /// The position of worker `id` among the tracks.
    fn find_track(&self, id: &String) -> (r: Option<usize>)
        requires
            self.wf(),
        ensures
            match r {
                Some(i) => i < self.workers@.len() && self@.tracks[i as int].id == id@,
                None => !self@.expects(id@),
            },
    {
        let mut i: usize = 0;
        while i < self.workers.len()
            invariant
                i <= self.workers.len(),
                forall|k: int| 0 <= k < i ==> self.workers@[k].service_id@ != id@,
            decreases self.workers.len() - i,
        {
            if self.workers[i].service_id.eq(id) {
                return Some(i);
            }
            i += 1;
        }
        proof {
            if self@.expects(id@) {
                let k = choose|k: int| 0 <= k < track_ids(self@.tracks).len() && track_ids(self@.tracks)[k] == id@;
                assert(self.workers@[k].service_id@ == id@);
            }
        }
        None
    }

    /// Replaces every track `t` by `f(t)`, where `f` keeps ids.
    fn rebuild_tracks(&mut self, id: &String, now: u64, mode: u8)
        requires
            old(self).wf(),
            mode <= 2,
        ensures
            final(self).wf(),
            final(self)@ == (MonitorView {
                tracks: old(self)@.tracks.map_values(|t: TrackView| track_update(t, id@, now, old(self).config.worker_timeout_secs, mode)),
                ..old(self)@
            }),
    {
        let ghost f = |t: TrackView| track_update(t, id@, now, self.config.worker_timeout_secs, mode);
        let mut out: Vec<WorkerTrack> = Vec::new();
        let mut i: usize = 0;
        while i < self.workers.len()
            invariant
                i <= self.workers.len(),
                mode <= 2,
                f == (|t: TrackView| track_update(t, id@, now, self.config.worker_timeout_secs, mode)),
                track_views(out@) == track_views(self.workers@).take(i as int).map_values(f),
            decreases self.workers.len() - i,
        {
            let w = &self.workers[i];
            let seen = w.last_seen;
            let expired_now = match seen {
                Some(t) => (now >= t && now - t > self.config.worker_timeout_secs),
                None => false,
            };
            let nt = if mode == 0 {
                if w.service_id.eq(id) {
                    w.with_state(true, Some(now))
                } else {
                    w.with_state(w.joined, w.last_seen)
                }
            } else if mode == 1 {
                if w.joined {
                    w.with_state(true, Some(now))
                } else {
                    w.with_state(w.joined, w.last_seen)
                }
            } else {
                if expired_now {
                    w.with_state(false, w.last_seen)
                } else {
                    w.with_state(w.joined, w.last_seen)
                }
            };
            assert(nt@ == f(w@));
            let ghost before = track_views(out@);
            out.push(nt);
            assert(track_views(out@) =~= before.push(f(w@)));
            assert(track_views(self.workers@).take(i as int + 1) =~= track_views(self.workers@).take(i as int).push(w@));
            assert(track_views(self.workers@).take(i as int + 1).map_values(f) =~= track_views(self.workers@).take(i as int).map_values(f).push(f(w@)));
            i += 1;
        }
        assert(track_views(self.workers@).take(i as int) =~= track_views(self.workers@));
        proof {
            lemma_map_keeps_ids(track_views(self.workers@), f);
        }
        self.workers = out;
    }
}

impl LifecycleMonitor {
    /// The ids of the workers to invite again at time `now`, in track order.
    fn retry_list(&self, now: u64) -> (r: Vec<String>)
        ensures
            r@.map_values(|s: String| s@) == retry_ids(self@.tracks, now, self.config.worker_timeout_secs),
    {
        let ghost tracks = self@.tracks;
        let timeout = self.config.worker_timeout_secs;
        let mut out: Vec<String> = Vec::new();
        let mut i: usize = 0;
        while i < self.workers.len()
            invariant
                i <= self.workers.len(),
                tracks == self@.tracks,
                timeout == self.config.worker_timeout_secs,
                out@.map_values(|s: String| s@) == retry_ids(tracks.take(i as int), now, timeout),
            decreases self.workers.len() - i,
        {
            let w = &self.workers[i];
            let retry = match w.last_seen {
                Some(t) => now >= t && now - t > timeout,
                None => !w.joined,
            };
            let ghost before = out@.map_values(|s: String| s@);
            assert(tracks.take(i as int + 1).drop_last() =~= tracks.take(i as int));
            assert(tracks.take(i as int + 1).last() == w@);
            if retry {
                out.push(w.service_id.clone());
                assert(out@.map_values(|s: String| s@) =~= before.push(w@.id));
            }
            i += 1;
        }
        assert(tracks.take(i as int) =~= tracks);
        out
    }

    fn quiet(stop: bool) -> (r: MonitorStep)
        ensures
            r@ == quiet_step(stop),
    {
        let r = MonitorStep { events: Vec::new(), retry: Vec::new(), stop };
        assert(r@.events =~= Seq::empty());
        assert(r@.retry =~= Seq::empty());
        r
    }

    /// Whether `id` names neither an expected worker nor the monitor itself.
    fn is_client(&self, id: &String) -> (r: bool)
        requires
            self.wf(),
        ensures
            r == self@.is_client(id@),
    {
        match self.find_track(id) {
            Some(i) => {
                assert(track_ids(self@.tracks)[i as int] == id@);
                false
            },
            None => !id.eq(&self.manager_identity),
        }
    }

    fn end_with(&mut self, status: SessionStatus) -> (r: MonitorStep)
        requires
            old(self).wf(),
        ensures
            final(self).wf(),
            (final(self)@, r@) == old(self)@.ending(status),
    {
        self.session.update_status(status);
        self.stopped = true;
        let mut events: Vec<SessionEvent> = Vec::new();
        events.push(SessionEvent::SessionStatusChanged { session_id: self.session.id.clone(), status });
        let r = MonitorStep { events, retry: Vec::new(), stop: true };
        assert(r@.events =~= seq![SessionEventView::SessionStatusChanged { session_id: old(self)@.session.id, status }]);
        assert(r@.retry =~= Seq::empty());
        r
    }

    fn on_joined(&mut self, id: String, now: u64) -> (r: MonitorStep)
        requires
            old(self).wf(),
            !old(self).stopped,
        ensures
            final(self).wf(),
            (final(self)@, r@) == old(self)@.on_joined(id@, now),
    {
        let ghost pre = self@;
        match self.find_track(&id) {
            Some(i) => {
                let newly = !self.workers[i].joined;
                assert(newly == pre.newly_joins(id@)) by {
                    if pre.newly_joins(id@) {
                        let j = choose|j: int| 0 <= j < pre.tracks.len() && pre.tracks[j].id == id@ && !pre.tracks[j].joined;
                        assert(track_ids(pre.tracks)[j] == track_ids(pre.tracks)[i as int]);
                    }
                }
                assert(pre.expects(id@)) by {
                    assert(track_ids(pre.tracks)[i as int] == id@);
                }
                let was_ready = self.session.status == SessionStatus::Ready;
                let _ = self.session.mark_service_ready(id.as_str());
                self.rebuild_tracks(&id, now, 0);
                assert(self@.tracks =~= pre.tracks.map_values(|t: TrackView| joined_track(t, id@, now)));
                let mut events: Vec<SessionEvent> = Vec::new();
                if newly {
                    events.push(SessionEvent::MicroserviceJoined { session_id: self.session.id.clone(), service_id: id.clone() });
                }
                let ghost first = event_views(events@);
                if self.session.status == SessionStatus::Ready && !was_ready {
                    events.push(SessionEvent::SessionReady { session_id: self.session.id.clone(), all_participants_joined: true });
                    assert(event_views(events@) =~= first.push(SessionEventView::SessionReady { session_id: pre.session.id, all_participants_joined: true }));
                }
                let r = MonitorStep { events, retry: Vec::new(), stop: false };
                assert(r@.retry =~= Seq::empty());
                assert(r@.events =~= pre.on_joined(id@, now).1.events);
                r
            },
            None => {
                if !id.eq(&self.manager_identity) {
                    if self.session.status == SessionStatus::Ready {
                        self.session.update_status(SessionStatus::Active);
                    }
                    self.client_connected = true;
                    self.client_last_seen = now;
                    let mut events: Vec<SessionEvent> = Vec::new();
                    events.push(SessionEvent::ClientJoined { session_id: self.session.id.clone(), user_identity: id });
                    let r = MonitorStep { events, retry: Vec::new(), stop: false };
                    assert(r@.retry =~= Seq::empty());
                    assert(r@.events =~= pre.on_joined(id@, now).1.events);
                    r
                } else {
                    Self::quiet(false)
                }
            },
        }
    }

    /// One step of the monitor on a room event or a timer tick at time `now`
    /// (seconds on the monitor's clock). Once stopped, it stays stopped and
    /// does nothing.
    pub fn step(&mut self, event: MonitorEvent, now: u64) -> (r: MonitorStep)
        requires
            old(self).wf(),
        ensures
            final(self).wf(),
            (final(self)@, r@) == old(self)@.next(event@, now),
    {
        if self.stopped {
            return Self::quiet(true);
        }
        let ghost pre = self@;
        match event {
            MonitorEvent::ParticipantJoined(id) => self.on_joined(id, now),
            MonitorEvent::ParticipantLeft(id) => {
                if self.is_client(&id) {
                    self.client_connected = false;
                }
                Self::quiet(false)
            },
            MonitorEvent::OtherRoomEvent => {
                self.rebuild_tracks(&String::new(), now, 1);
                self.client_last_seen = now;
                assert(self@.tracks =~= pre.tracks.map_values(|t: TrackView| heartbeat_track(t, now)));
                Self::quiet(false)
            },
            MonitorEvent::StreamClosed => self.end_with(SessionStatus::Terminated),
            MonitorEvent::TimerTick => {
                if self.client_connected && now >= self.client_last_seen
                    && now - self.client_last_seen > self.config.client_timeout_secs {
                    self.end_with(SessionStatus::Terminating)
                } else {
                    let retry = self.retry_list(now);
                    self.rebuild_tracks(&String::new(), now, 2);
                    assert(self@.tracks =~= pre.tracks.map_values(|t: TrackView| tick_track(t, now, pre.worker_timeout)));
                    let r = MonitorStep { events: Vec::new(), retry, stop: false };
                    assert(r@.events =~= Seq::empty());
                    r
                }
            },
        }
    }
}

/// The three ways a step updates a track: a worker joined (0), a heartbeat
/// (1), a timer tick (2).
pub open spec fn track_update(t: TrackView, id: Seq<char>, now: u64, timeout: u64, mode: u8) -> TrackView {
    if mode == 0 {
        joined_track(t, id, now)
    } else if mode == 1 {
        heartbeat_track(t, now)
    } else {
        tick_track(t, now, timeout)
    }
}

/// The number of `SessionReady` events in `evs`.
pub open spec fn ready_count(evs: Seq<SessionEventView>) -> nat
    decreases evs.len(),
{
    if evs.len() == 0 {
        0
    } else {
        ready_count(evs.drop_first()) + if evs[0] is SessionReady { 1nat } else { 0nat }
    }
}

/// The number of `MicroserviceJoined` events in `evs`.
pub open spec fn joined_count(evs: Seq<SessionEventView>) -> nat
    decreases evs.len(),
{
    if evs.len() == 0 {
        0
    } else {
        joined_count(evs.drop_first()) + if evs[0] is MicroserviceJoined { 1nat } else { 0nat }
    }
}

/// The monitor's state after the timed events `evs`, and every event it
/// published on the way, in order.
pub open spec fn run(m: MonitorView, evs: Seq<(MonitorEventView, u64)>) -> (MonitorView, Seq<SessionEventView>)
    decreases evs.len(),
{
    if evs.len() == 0 {
        (m, Seq::empty())
    } else {
        let (m0, before) = run(m, evs.drop_last());
        let (m1, st) = m0.next(evs.last().0, evs.last().1);
        (m1, before + st.events)
    }
}

proof fn lemma_counts_add(a: Seq<SessionEventView>, b: Seq<SessionEventView>)
    ensures
        ready_count(a + b) == ready_count(a) + ready_count(b),
        joined_count(a + b) == joined_count(a) + joined_count(b),
    decreases a.len(),
{
    if a.len() == 0 {
        assert(a + b =~= b);
    } else {
        lemma_counts_add(a.drop_first(), b);
        assert((a + b).drop_first() =~= a.drop_first() + b);
    }
}

proof fn lemma_counts_small(a: SessionEventView, b: SessionEventView)
    ensures
        ready_count(seq![a]) == if a is SessionReady { 1nat } else { 0nat },
        ready_count(seq![a, b]) == ready_count(seq![a]) + ready_count(seq![b]),
        joined_count(seq![a]) == if a is MicroserviceJoined { 1nat } else { 0nat },
{
    let s1 = seq![a];
    assert(s1.drop_first() =~= Seq::<SessionEventView>::empty());
    assert(ready_count(Seq::<SessionEventView>::empty()) == 0);
    assert(joined_count(Seq::<SessionEventView>::empty()) == 0);
    assert(s1[0] == a);
    assert(ready_count(s1) == ready_count(s1.drop_first()) + if s1[0] is SessionReady { 1nat } else { 0nat });
    assert(joined_count(s1) == joined_count(s1.drop_first()) + if s1[0] is MicroserviceJoined { 1nat } else { 0nat });
    assert(seq![a, b] =~= seq![a] + seq![b]);
    lemma_counts_add(seq![a], seq![b]);
}

/// One step publishes at most one `SessionReady`, and only when it moves the
/// session out of the states that wait for workers; a session that no longer
/// waits for workers never waits for them again.
proof fn lemma_step_ready(m: MonitorView, ev: MonitorEventView, now: u64)
    ensures
        ready_count(m.next(ev, now).1.events) <= if m.session.status.awaits_workers() { 1nat } else { 0nat },
        !m.session.status.awaits_workers() ==> !m.next(ev, now).0.session.status.awaits_workers(),
        ready_count(m.next(ev, now).1.events) == 1 ==> !m.next(ev, now).0.session.status.awaits_workers(),
{
    let e0 = SessionEventView::SessionReady { session_id: m.session.id, all_participants_joined: true };
    let st = m.next(ev, now).1;
    assert(ready_count(Seq::<SessionEventView>::empty()) == 0);
    if !m.stopped {
        match ev {
            MonitorEventView::ParticipantJoined(id) => {
                if m.expects(id) {
                    let j = SessionEventView::MicroserviceJoined { session_id: m.session.id, service_id: id };
                    lemma_counts_small(j, e0);
                    lemma_counts_small(e0, j);
                    let joined_ev = if m.newly_joins(id) { seq![j] } else { Seq::empty() };
                    let session = m.session.after_mark(id);
                    let ready_ev = if session.status == SessionStatus::Ready && m.session.status != SessionStatus::Ready {
                        seq![e0]
                    } else {
                        Seq::empty()
                    };
                    lemma_counts_add(joined_ev, ready_ev);
                } else if m.is_client(id) {
                    lemma_counts_small(SessionEventView::ClientJoined { session_id: m.session.id, user_identity: id }, e0);
                }
            },
            MonitorEventView::StreamClosed => {
                lemma_counts_small(SessionEventView::SessionStatusChanged { session_id: m.session.id, status: SessionStatus::Terminated }, e0);
            },
            MonitorEventView::TimerTick => {
                lemma_counts_small(SessionEventView::SessionStatusChanged { session_id: m.session.id, status: SessionStatus::Terminating }, e0);
            },
            _ => {},
        }
    }
}

/// Over the whole life of a monitor, whatever happens in the room,
/// `SessionReady` is published at most once, and never when the session had
/// stopped waiting for workers before the monitor started.
pub proof fn lemma_ready_published_at_most_once(m: MonitorView, evs: Seq<(MonitorEventView, u64)>)
    ensures
        ready_count(run(m, evs).1) <= if m.session.status.awaits_workers() { 1nat } else { 0nat },
        ready_count(run(m, evs).1) == 1 ==> !run(m, evs).0.session.status.awaits_workers(),
        !m.session.status.awaits_workers() ==> !run(m, evs).0.session.status.awaits_workers(),
    decreases evs.len(),
{
    if evs.len() == 0 {
        assert(ready_count(Seq::<SessionEventView>::empty()) == 0);
    } else {
        let (m0, before) = run(m, evs.drop_last());
        let (m1, st) = m0.next(evs.last().0, evs.last().1);
        lemma_ready_published_at_most_once(m, evs.drop_last());
        lemma_step_ready(m0, evs.last().0, evs.last().1);
        lemma_counts_add(before, st.events);
    }
}

/// The join events of the workers `ids`, in order, all at time `now`.
pub open spec fn joins(ids: Seq<Seq<char>>, now: u64) -> Seq<(MonitorEventView, u64)> {
    ids.map_values(|id: Seq<char>| (MonitorEventView::ParticipantJoined(id), now))
}

/// Observing expected workers join leaves the set of workers, the monitor's
/// identity and its running state as they were, and moves the session as
/// marking those workers ready one after another does.
pub proof fn lemma_joins_mark_session(m: MonitorView, ids: Seq<Seq<char>>, now: u64)
    requires
        !m.stopped,
        forall|i: int| 0 <= i < ids.len() ==> m.expects(#[trigger] ids[i]),
    ensures
        run(m, joins(ids, now)).0.session == m.session.after_marks(ids),
        track_ids(run(m, joins(ids, now)).0.tracks) == track_ids(m.tracks),
        !run(m, joins(ids, now)).0.stopped,
    decreases ids.len(),
{
    if ids.len() > 0 {
        let init = ids.drop_last();
        assert(joins(ids, now).drop_last() =~= joins(init, now));
        assert forall|i: int| 0 <= i < init.len() implies m.expects(#[trigger] init[i]) by {
            assert(init[i] == ids[i]);
        }
        lemma_joins_mark_session(m, init, now);
        let m0 = run(m, joins(init, now)).0;
        let id = ids.last();
        assert(joins(ids, now).last() == (MonitorEventView::ParticipantJoined(id), now));
        assert(m.expects(id)) by {
            assert(ids[ids.len() - 1] == id);
        }
        assert(m0.expects(id));
        lemma_map_keeps_ids(m0.tracks, |t: TrackView| joined_track(t, id, now));
    }
}

/// Readiness at the level of the monitor: for a session that waits for its
/// workers and misses one, after the monitor has seen the expected workers
/// `ids` join, the session is `Ready` exactly when every required worker is
/// among them, and still `WaitingForServices` when only some are.
pub proof fn lemma_monitor_ready_iff_all_joined(m: MonitorView, ids: Seq<Seq<char>>, now: u64)
    requires
        !m.stopped,
        m.session.status == SessionStatus::WaitingForServices,
        m.session.ready.subset_of(m.session.required_ids()),
        !m.session.all_ready(),
        forall|i: int| 0 <= i < ids.len() ==> m.expects(#[trigger] ids[i]),
    ensures
        run(m, joins(ids, now)).0.session.status == (if m.session.required_ids().subset_of(m.session.ready.union(ids.to_set())) {
            SessionStatus::Ready
        } else {
            SessionStatus::WaitingForServices
        }),
{
    lemma_joins_mark_session(m, ids, now);
    lemma_ready_iff_all_observed(m.session, ids);
}

/// A worker observed joining twice in a row is announced once: the first
/// observation publishes one `MicroserviceJoined`, the second publishes
/// nothing and leaves the state as it was.
pub proof fn lemma_join_twice_announced_once(m: MonitorView, id: Seq<char>, t1: u64, t2: u64)
    requires
        !m.stopped,
        m.expects(id),
        !m.joined_set().contains(id),
    ensures
        joined_count(m.next(MonitorEventView::ParticipantJoined(id), t1).1.events) == 1,
        m.next(MonitorEventView::ParticipantJoined(id), t1).0.next(MonitorEventView::ParticipantJoined(id), t2).1.events.len() == 0,
        m.next(MonitorEventView::ParticipantJoined(id), t1).0.next(MonitorEventView::ParticipantJoined(id), t2).0.session
            == m.next(MonitorEventView::ParticipantJoined(id), t1).0.session,
{
    let k = choose|k: int| 0 <= k < track_ids(m.tracks).len() && track_ids(m.tracks)[k] == id;
    assert(m.newly_joins(id)) by {
        if !m.tracks[k].joined {
        } else {
            assert(m.joined_set().contains(id));
        }
    }
    let (m1, st1) = m.next(MonitorEventView::ParticipantJoined(id), t1);
    let j = SessionEventView::MicroserviceJoined { session_id: m.session.id, service_id: id };
    let e0 = SessionEventView::SessionReady { session_id: m.session.id, all_participants_joined: true };
    lemma_counts_small(j, e0);
    lemma_counts_small(e0, j);
    let session = m.session.after_mark(id);
    let ready_ev = if session.status == SessionStatus::Ready && m.session.status != SessionStatus::Ready {
        seq![e0]
    } else {
        Seq::empty()
    };
    lemma_counts_add(seq![j], ready_ev);
    assert(joined_count(Seq::<SessionEventView>::empty()) == 0);
    lemma_map_keeps_ids(m.tracks, |t: TrackView| joined_track(t, id, t1));
    assert(m1.tracks[k].id == id && m1.tracks[k].joined);
    assert(m1.expects(id)) by {
        assert(track_ids(m1.tracks)[k] == id);
    }
    assert(!m1.newly_joins(id)) by {
        if m1.newly_joins(id) {
            let i = choose|i: int| 0 <= i < m1.tracks.len() && m1.tracks[i].id == id && !m1.tracks[i].joined;
            assert(m1.tracks[i] == joined_track(m.tracks[i], id, t1));
        }
    }
    lemma_mark_idempotent(m.session, id);
}

/// A worker already in the joined set that shows up again is a reconnect:
/// nothing is published, the session (which has the worker ready since its
/// first arrival) is unchanged and the worker stays joined. Applied after each arrival, this covers any number of repeats.
pub proof fn lemma_rejoin_silent(m: MonitorView, id: Seq<char>, now: u64)
    requires
        !m.stopped,
        m.joined_set().contains(id),
        m.session.ready.contains(id),
        track_ids(m.tracks).no_duplicates(),
    ensures
        m.next(MonitorEventView::ParticipantJoined(id), now).1.events.len() == 0,
        m.next(MonitorEventView::ParticipantJoined(id), now).0.session == m.session,
        m.next(MonitorEventView::ParticipantJoined(id), now).0.joined_set().contains(id),
        !m.next(MonitorEventView::ParticipantJoined(id), now).0.stopped,
{
    let k = choose|k: int| 0 <= k < m.tracks.len() && m.tracks[k].id == id && m.tracks[k].joined;
    assert(m.expects(id)) by {
        assert(track_ids(m.tracks)[k] == id);
    }
    assert(!m.newly_joins(id)) by {
        if m.newly_joins(id) {
            let i = choose|i: int| 0 <= i < m.tracks.len() && m.tracks[i].id == id && !m.tracks[i].joined;
            assert(track_ids(m.tracks)[i] == track_ids(m.tracks)[k]);
        }
    }
    let m1 = m.next(MonitorEventView::ParticipantJoined(id), now).0;
    assert(m1.tracks[k] == joined_track(m.tracks[k], id, now));
    assert(m1.joined_set().contains(id));
}

/// Whether a worker is in the retry list of a tick is decided by its own track.
proof fn lemma_retry_ids_contains(tracks: Seq<TrackView>, now: u64, timeout: u64, i: int)
    requires
        0 <= i < tracks.len(),
        track_ids(tracks).no_duplicates(),
    ensures
        retry_ids(tracks, now, timeout).contains(tracks[i].id) == needs_retry(tracks[i], now, timeout),
    decreases tracks.len(),
{
    let id = tracks[i].id;
    let n = tracks.len() - 1;
    let init = tracks.drop_last();
    assert(track_ids(init) =~= track_ids(tracks).drop_last());
    assert forall|k: int| 0 <= k < init.len() implies #[trigger] init[k].id != tracks.last().id by {
        assert(track_ids(tracks)[k] != track_ids(tracks)[n]);
    }
    lemma_retry_ids_without(init, now, timeout, tracks.last().id);
    let rest = retry_ids(init, now, timeout);
    let last = tracks.last();
    assert(last == tracks[n]);
    vstd::seq_lib::lemma_seq_contains_after_push(rest, last.id, id);
    if i == n {
    } else {
        assert(init[i] == tracks[i]);
        lemma_retry_ids_contains(init, now, timeout, i);
        assert(track_ids(tracks)[i] != track_ids(tracks)[n]);
    }
}

/// An id that no track holds never shows up in the retry list.
proof fn lemma_retry_ids_without(tracks: Seq<TrackView>, now: u64, timeout: u64, id: Seq<char>)
    requires
        forall|k: int| 0 <= k < tracks.len() ==> #[trigger] tracks[k].id != id,
    ensures
        !retry_ids(tracks, now, timeout).contains(id),
    decreases tracks.len(),
{
    if tracks.len() > 0 {
        let init = tracks.drop_last();
        assert forall|k: int| 0 <= k < init.len() implies #[trigger] init[k].id != id by {
            assert(init[k] == tracks[k]);
        }
        lemma_retry_ids_without(init, now, timeout, id);
    }
}

/// At a tick that does not end the session, a worker that was seen and has
/// then been silent for longer than the worker timeout leaves the joined set
/// and is listed for a new join instruction; a worker seen within the timeout
/// (a missed heartbeat or two) keeps its place and is not listed.
pub proof fn lemma_worker_timeout(m: MonitorView, i: int, now: u64)
    requires
        0 <= i < m.tracks.len(),
        track_ids(m.tracks).no_duplicates(),
        !m.stopped,
        !m.client_timed_out(now),
    ensures
        ({
            let (m2, st) = m.next(MonitorEventView::TimerTick, now);
            let id = m.tracks[i].id;
            &&& (m.tracks[i].last_seen is Some && age(m.tracks[i].last_seen->0, now) > m.worker_timeout)
                    ==> !m2.joined_set().contains(id) && st.retry.contains(id)
            &&& (m.tracks[i].last_seen is Some && age(m.tracks[i].last_seen->0, now) <= m.worker_timeout)
                    ==> m2.joined_set().contains(id) == m.joined_set().contains(id) && !st.retry.contains(id)
        }),
{
    let (m2, st) = m.next(MonitorEventView::TimerTick, now);
    let id = m.tracks[i].id;
    lemma_retry_ids_contains(m.tracks, now, m.worker_timeout, i);
    lemma_map_keeps_ids(m.tracks, |t: TrackView| tick_track(t, now, m.worker_timeout));
    assert(m2.tracks[i] == tick_track(m.tracks[i], now, m.worker_timeout));
    assert forall|k: int| 0 <= k < m.tracks.len() && m.tracks[k].id == id implies k == i by {
        assert(track_ids(m.tracks)[k] == track_ids(m.tracks)[i]);
    }
    if m2.joined_set().contains(id) {
        let k = choose|k: int| 0 <= k < m2.tracks.len() && m2.tracks[k].id == id && m2.tracks[k].joined;
        assert(m2.tracks[k] == tick_track(m.tracks[k], now, m.worker_timeout));
        assert(k == i);
    }
    if m.joined_set().contains(id) {
        let k = choose|k: int| 0 <= k < m.tracks.len() && m.tracks[k].id == id && m.tracks[k].joined;
        assert(k == i);
    }
}

/// A connected client that has been silent for longer than the client
/// timeout ends the session at the next tick, whether or not every worker is
/// present: the session moves to `Terminating`, the change is published and
/// the monitor stops.
pub proof fn lemma_client_timeout(m: MonitorView, now: u64)
    requires
        !m.stopped,
        m.client_timed_out(now),
        m.session.status != SessionStatus::Terminated,
    ensures
        m.next(MonitorEventView::TimerTick, now).0.session.status == SessionStatus::Terminating,
        m.next(MonitorEventView::TimerTick, now).0.stopped,
        m.next(MonitorEventView::TimerTick, now).1.stop,
        m.next(MonitorEventView::TimerTick, now).1.events == seq![
            SessionEventView::SessionStatusChanged { session_id: m.session.id, status: SessionStatus::Terminating },
        ],
{
}

} // verus!
