use std::collections::HashMap;
use vstd::prelude::*;

use crate::clock::now_millis;
use crate::seq_lemmas::{lemma_push_new, lemma_to_set_contains};
use crate::config::LiveKitConfig;
use crate::domain::microservice::{MicroserviceInfo, MicroserviceInfoView};
use crate::services::livekit_service::{MANAGER_TOKEN_TTL_SECS, TokenGrant, WORKER_TOKEN_TTL_SECS, sign_token};
use crate::utils::errors::{Result, SessionManagerError};

verus! {

/// Lifecycle of a session:
/// `Creating -> WaitingForServices -> Ready -> Active -> Terminating -> Terminated`.
/// A session with no required workers goes from `Creating` straight to `Ready`.
#[derive(Debug, Clone, Copy, PartialEq, Eq, Structural)]
pub enum SessionStatus {
    Creating,
    WaitingForServices,
    Ready,
    Active,
    Terminating,
    Terminated,
}

impl SessionStatus {
    /// The states from which the last missing worker moves a session to `Ready`.
    pub open spec fn awaits_workers(self) -> bool {
        self == SessionStatus::Creating || self == SessionStatus::WaitingForServices
    }
}

/// One group rendezvous, bound to one room. Timestamps are in milliseconds
/// since the Unix epoch.
#[derive(Debug, Clone)]
pub struct Session {
    pub id: String,
    pub room_name: String,
    pub status: SessionStatus,
    pub created_at: i64,
    pub updated_at: i64,
    pub client_token: Option<String>,
    pub registered_microservices: Vec<MicroserviceInfo>,
    pub ready_microservices: Vec<String>,
    pub metadata: HashMap<String, String>,
}

/// The state of a session that its rules speak of; timestamps are left out.
pub struct SessionView {
    pub id: Seq<char>,
    pub room_name: Seq<char>,
    pub status: SessionStatus,
    pub client_token: Option<Seq<char>>,
    pub registered: Seq<MicroserviceInfoView>,
    pub ready: Set<Seq<char>>,
    pub metadata: Map<String, String>,
}

pub open spec fn string_views(v: Seq<String>) -> Seq<Seq<char>> {
    v.map_values(|s: String| s@)
}

pub open spec fn info_views(v: Seq<MicroserviceInfo>) -> Seq<MicroserviceInfoView> {
    v.map_values(|m: MicroserviceInfo| m@)
}

pub open spec fn opt_string_view(o: Option<String>) -> Option<Seq<char>> {
    match o {
        Some(s) => Some(s@),
        None => None,
    }
}

/// The ids of a list of worker descriptors, in order.
pub open spec fn ids_of(reg: Seq<MicroserviceInfoView>) -> Seq<Seq<char>> {
    reg.map_values(|m: MicroserviceInfoView| m.service_id)
}

/// The ids in `reg`, in order, that are not in `ready`.
pub open spec fn pending_ids(reg: Seq<MicroserviceInfoView>, ready: Set<Seq<char>>) -> Seq<Seq<char>>
    decreases reg.len(),
{
    if reg.len() == 0 {
        Seq::empty()
    } else {
        let rest = pending_ids(reg.drop_last(), ready);
        if ready.contains(reg.last().service_id) {
            rest
        } else {
            rest.push(reg.last().service_id)
        }
    }
}

impl SessionView {
    pub open spec fn required_ids(self) -> Set<Seq<char>> {
        ids_of(self.registered).to_set()
    }

    /// Every required worker has been observed in the room.
    pub open spec fn all_ready(self) -> bool {
        self.required_ids().subset_of(self.ready)
    }

    /// Marking `id` ready changes the session: `id` is required and not yet ready.
    pub open spec fn marks_new(self, id: Seq<char>) -> bool {
        self.required_ids().contains(id) && !self.ready.contains(id)
    }

    /// The session after a worker `id` has been observed in the room.
    pub open spec fn after_mark(self, id: Seq<char>) -> SessionView {
        if self.marks_new(id) {
            let ready = self.ready.insert(id);
            let status = if self.required_ids().subset_of(ready) && self.status.awaits_workers() {
                SessionStatus::Ready
            } else {
                self.status
            };
            SessionView { ready, status, ..self }
        } else {
            self
        }
    }

    /// The session after the workers `ids` have been observed, in order.
    pub open spec fn after_marks(self, ids: Seq<Seq<char>>) -> SessionView
        decreases ids.len(),
    {
        if ids.len() == 0 {
            self
        } else {
            self.after_marks(ids.drop_last()).after_mark(ids.last())
        }
    }

    /// The status after a request to move to `status`: `Terminated` is absorbing.
    pub open spec fn after_status(self, status: SessionStatus) -> SessionView {
        if self.status == SessionStatus::Terminated {
            self
        } else {
            SessionView { status, ..self }
        }
    }
}

impl View for Session {
    type V = SessionView;

    open spec fn view(&self) -> SessionView {
        SessionView {
            id: self.id@,
            room_name: self.room_name@,
            status: self.status,
            client_token: opt_string_view(self.client_token),
            registered: info_views(self.registered_microservices@),
            ready: string_views(self.ready_microservices@).to_set(),
            metadata: self.metadata@,
        }
    }
}

impl Session {
    /// The ready list holds each id once, and only ids of required workers.
    pub open spec fn wf(&self) -> bool {
        &&& string_views(self.ready_microservices@).no_duplicates()
        &&& self@.ready.subset_of(self@.required_ids())
    }

    pub fn new(id: String, room_name: String, metadata: HashMap<String, String>) -> (r: Self)
        ensures
            r.wf(),
            r@ == (SessionView {
                id: id@,
                room_name: room_name@,
                status: SessionStatus::Creating,
                client_token: None,
                registered: Seq::empty(),
                ready: Set::empty(),
                metadata: metadata@,
            }),
            r.created_at == r.updated_at,
    {
        let now = now_millis();
        let r = Session {
            id,
            room_name,
            status: SessionStatus::Creating,
            created_at: now,
            updated_at: now,
            client_token: None,
            registered_microservices: Vec::new(),
            ready_microservices: Vec::new(),
            metadata,
        };
        assert(string_views(r.ready_microservices@) =~= Seq::empty());
        assert(info_views(r.registered_microservices@) =~= Seq::empty());
        assert(r@.ready =~= Set::empty());
        r
    }

    /// Moves to `status`, unless the session is already `Terminated`.
    pub fn update_status(&mut self, status: SessionStatus)
        requires
            old(self).wf(),
        ensures
            final(self).wf(),
            final(self)@ == old(self)@.after_status(status),
            final(self).created_at == old(self).created_at,
            final(self).updated_at >= old(self).updated_at,
    {
        if self.status != SessionStatus::Terminated {
            self.status = status;
            self.touch();
        }
    }

    /// Moves `updated_at` to the time now, never backwards.
    fn touch(&mut self)
        ensures
            final(self)@ == old(self)@,
            final(self).ready_microservices == old(self).ready_microservices,
            final(self).registered_microservices == old(self).registered_microservices,
            final(self).wf() == old(self).wf(),
            final(self).created_at == old(self).created_at,
            final(self).updated_at >= old(self).updated_at,
    {
        let now = now_millis();
        if now > self.updated_at {
            self.updated_at = now;
        }
    }

    /// Adds a worker to the required list; membership is fixed once the
    /// session has left `Creating`, and the call is then ignored.
    pub fn add_microservice(&mut self, microservice: MicroserviceInfo)
        requires
            old(self).wf(),
        ensures
            final(self).wf(),
            old(self).status == SessionStatus::Creating ==> final(self)@ == (SessionView {
                registered: old(self)@.registered.push(microservice@),
                ..old(self)@
            }),
            old(self).status != SessionStatus::Creating ==> final(self)@ == old(self)@,
            final(self).created_at == old(self).created_at,
            final(self).updated_at >= old(self).updated_at,
    {
        if self.status == SessionStatus::Creating {
            let ghost old_reg = info_views(self.registered_microservices@);
            self.registered_microservices.push(microservice);
            self.touch();
            proof {
                let reg = info_views(self.registered_microservices@);
                assert(reg =~= old_reg.push(microservice@));
                assert(ids_of(reg) =~= ids_of(old_reg).push(microservice@.service_id));
                assert forall|x| #[trigger] ids_of(old_reg).to_set().contains(x) implies ids_of(reg).to_set().contains(x) by {
                    let k = choose|k: int| 0 <= k < ids_of(old_reg).len() && ids_of(old_reg)[k] == x;
                    assert(ids_of(reg)[k] == x);
                }
            }
        }
    }

    /// Whether `id` is in the ready list.
    fn ready_contains(&self, id: &str) -> (r: bool)
        ensures
            r == self@.ready.contains(id@),
    {
        let key = id.to_owned();
        let mut i: usize = 0;
        while i < self.ready_microservices.len()
            invariant
                i <= self.ready_microservices.len(),
                key@ == id@,
                forall|k: int| 0 <= k < i ==> self.ready_microservices@[k]@ != id@,
            decreases self.ready_microservices.len() - i,
        {
            if self.ready_microservices[i].eq(&key) {
                assert(string_views(self.ready_microservices@)[i as int] == id@);
                return true;
            }
            i += 1;
        }
        proof {
            if string_views(self.ready_microservices@).to_set().contains(id@) {
                let k = choose|k: int| 0 <= k < string_views(self.ready_microservices@).len() && string_views(self.ready_microservices@)[k] == id@;
                assert(self.ready_microservices@[k]@ == id@);
            }
        }
        false
    }

    /// Whether `id` is the id of a required worker.
    fn requires_service(&self, id: &str) -> (r: bool)
        ensures
            r == self@.required_ids().contains(id@),
    {
        let key = id.to_owned();
        let mut i: usize = 0;
        while i < self.registered_microservices.len()
            invariant
                i <= self.registered_microservices.len(),
                key@ == id@,
                forall|k: int| 0 <= k < i ==> self.registered_microservices@[k].service_id@ != id@,
            decreases self.registered_microservices.len() - i,
        {
            if self.registered_microservices[i].service_id.eq(&key) {
                assert(ids_of(info_views(self.registered_microservices@))[i as int] == id@);
                return true;
            }
            i += 1;
        }
        proof {
            let ids = ids_of(info_views(self.registered_microservices@));
            if ids.to_set().contains(id@) {
                let k = choose|k: int| 0 <= k < ids.len() && ids[k] == id@;
                assert(self.registered_microservices@[k].service_id@ == id@);
            }
        }
        false
    }

    /// Whether every required worker is in the ready list.
    fn every_required_ready(&self) -> (r: bool)
        ensures
            r == self@.all_ready(),
    {
        let mut i: usize = 0;
        while i < self.registered_microservices.len()
            invariant
                i <= self.registered_microservices.len(),
                forall|k: int| 0 <= k < i ==> self@.ready.contains(#[trigger] self.registered_microservices@[k].service_id@),
            decreases self.registered_microservices.len() - i,
        {
            if !self.ready_contains(self.registered_microservices[i].service_id.as_str()) {
                assert(self@.required_ids().contains(ids_of(self@.registered)[i as int]));
                return false;
            }
            i += 1;
        }
        proof {
            let ids = ids_of(self@.registered);
            assert forall|x| #[trigger] self@.required_ids().contains(x) implies self@.ready.contains(x) by {
                let k = choose|k: int| 0 <= k < ids.len() && ids[k] == x;
                assert(self.registered_microservices@[k].service_id@ == x);
            }
        }
        true
    }

    /// Records that worker `service_id` was observed in the room. Returns
    /// whether this changed the session: the id is required and was not yet
    /// ready. When the last required worker arrives, a session that awaits
    /// workers becomes `Ready`. Marking the same id again is a no-op.
    pub fn mark_service_ready(&mut self, service_id: &str) -> (r: bool)
        requires
            old(self).wf(),
        ensures
            final(self).wf(),
            r == old(self)@.marks_new(service_id@),
            final(self)@ == old(self)@.after_mark(service_id@),
            final(self).created_at == old(self).created_at,
            final(self).updated_at >= old(self).updated_at,
            !r ==> final(self).updated_at == old(self).updated_at,
    {
        if !self.requires_service(service_id) || self.ready_contains(service_id) {
            return false;
        }
        let ghost old_ready = string_views(self.ready_microservices@);
        self.ready_microservices.push(service_id.to_owned());
        self.touch();
        proof {
            let ready = string_views(self.ready_microservices@);
            assert(ready =~= old_ready.push(service_id@));
            lemma_to_set_contains(old_ready, service_id@);
            lemma_push_new(old_ready, service_id@);
        }
        if self.status == SessionStatus::Creating || self.status == SessionStatus::WaitingForServices {
            if self.every_required_ready() {
                self.status = SessionStatus::Ready;
            }
        }
        true
    }

    pub fn is_ready(&self) -> (r: bool)
        ensures
            r == (self.status == SessionStatus::Ready),
    {
        self.status == SessionStatus::Ready
    }

    /// The ids of the required workers not yet observed, in required order.
    pub fn get_pending_services(&self) -> (r: Vec<String>)
        ensures
            string_views(r@) == pending_ids(self@.registered, self@.ready),
    {
        let mut out: Vec<String> = Vec::new();
        let mut i: usize = 0;
        while i < self.registered_microservices.len()
            invariant
                i <= self.registered_microservices.len(),
                string_views(out@) == pending_ids(self@.registered.take(i as int), self@.ready),
            decreases self.registered_microservices.len() - i,
        {
            let ghost prefix = self@.registered.take(i as int);
            let ghost next = self@.registered.take(i as int + 1);
            assert(next.drop_last() =~= prefix);
            assert(next.last() == self.registered_microservices@[i as int]@);
            if !self.ready_contains(self.registered_microservices[i].service_id.as_str()) {
                let id = self.registered_microservices[i].service_id.clone();
                let ghost before = string_views(out@);
                out.push(id);
                assert(string_views(out@) =~= before.push(next.last().service_id));
            }
            i += 1;
        }
        assert(self@.registered.take(i as int) =~= self@.registered);
        out
    }

    /// The ids of the workers observed so far, each once.
    pub fn get_ready_services(&self) -> (r: Vec<String>)
        requires
            self.wf(),
        ensures
            string_views(r@).no_duplicates(),
            string_views(r@).to_set() == self@.ready,
    {
        let mut out: Vec<String> = Vec::new();
        let mut i: usize = 0;
        while i < self.ready_microservices.len()
            invariant
                i <= self.ready_microservices.len(),
                string_views(out@) == string_views(self.ready_microservices@).take(i as int),
            decreases self.ready_microservices.len() - i,
        {
            let ghost before = string_views(out@);
            out.push(self.ready_microservices[i].clone());
            assert(string_views(out@) =~= before.push(self.ready_microservices@[i as int]@));
            assert(string_views(self.ready_microservices@).take(i as int + 1) =~= string_views(self.ready_microservices@).take(i as int).push(self.ready_microservices@[i as int]@));
            i += 1;
        }
        assert(string_views(self.ready_microservices@).take(i as int) =~= string_views(self.ready_microservices@));
        out
    }

    /// Same as [`Session::mark_service_ready`], without the report.
    pub fn handle_microservice_joined(&mut self, service_id: &str)
        requires
            old(self).wf(),
        ensures
            final(self).wf(),
            final(self)@ == old(self)@.after_mark(service_id@),
            final(self).created_at == old(self).created_at,
            final(self).updated_at >= old(self).updated_at,
    {
        let _ = self.mark_service_ready(service_id);
    }
}

/// The identity the human client joins the room with.
pub open spec fn client_identity_of(session_id: Seq<char>) -> Seq<char> {
    "client-"@ + session_id
}

/// The identity the engine's own hidden participant joins the room with.
pub open spec fn manager_identity_of(session_id: Seq<char>) -> Seq<char> {
    "session-manager-"@ + session_id
}

/// The identity of the engine's hidden participant in the room of session
/// `session_id`.
pub fn manager_identity_for(session_id: &str) -> (r: String)
    ensures
        r@ == manager_identity_of(session_id@),
{
    let mut r = String::from_str("session-manager-");
    r.append(session_id);
    r
}

/// Turns the result of signing a credential into the engine's result: a
/// signing failure is a room provider failure, with the provider's reason.
pub fn mint_outcome(minted: core::result::Result<String, String>) -> (r: Result<String>)
    ensures
        minted is Ok <==> r is Ok,
        minted is Ok ==> r->Ok_0@ == minted->Ok_0@,
        minted is Err ==> r->Err_0 is LiveKit && r->Err_0->LiveKit_0@ == minted->Err_0@,
{
    match minted {
        Ok(t) => Ok(t),
        Err(m) => Err(SessionManagerError::LiveKit(m)),
    }
}

impl Session {
    /// A copy of the session with the same view and timestamps.
    pub fn duplicate(&self) -> (r: Session)
        ensures
            r@ == self@,
            r.created_at == self.created_at,
            r.updated_at == self.updated_at,
            r.wf() == self.wf(),
    {
        let mut registered: Vec<MicroserviceInfo> = Vec::new();
        let mut i: usize = 0;
        while i < self.registered_microservices.len()
            invariant
                i <= self.registered_microservices.len(),
                info_views(registered@) == info_views(self.registered_microservices@).take(i as int),
            decreases self.registered_microservices.len() - i,
        {
            let ghost before = info_views(registered@);
            registered.push(self.registered_microservices[i].duplicate());
            assert(info_views(registered@) =~= before.push(self.registered_microservices@[i as int]@));
            assert(info_views(self.registered_microservices@).take(i as int + 1) =~= info_views(self.registered_microservices@).take(i as int).push(self.registered_microservices@[i as int]@));
            i += 1;
        }
        assert(info_views(self.registered_microservices@).take(i as int) =~= info_views(self.registered_microservices@));
        let mut ready: Vec<String> = Vec::new();
        let mut j: usize = 0;
        while j < self.ready_microservices.len()
            invariant
                j <= self.ready_microservices.len(),
                string_views(ready@) == string_views(self.ready_microservices@).take(j as int),
            decreases self.ready_microservices.len() - j,
        {
            let ghost before = string_views(ready@);
            ready.push(self.ready_microservices[j].clone());
            assert(string_views(ready@) =~= before.push(self.ready_microservices@[j as int]@));
            assert(string_views(self.ready_microservices@).take(j as int + 1) =~= string_views(self.ready_microservices@).take(j as int).push(self.ready_microservices@[j as int]@));
            j += 1;
        }
        assert(string_views(self.ready_microservices@).take(j as int) =~= string_views(self.ready_microservices@));
        let token = match &self.client_token {
            Some(t) => Some(t.clone()),
            None => None,
        };
        Session {
            id: self.id.clone(),
            room_name: self.room_name.clone(),
            status: self.status,
            created_at: self.created_at,
            updated_at: self.updated_at,
            client_token: token,
            registered_microservices: registered,
            ready_microservices: ready,
            metadata: self.metadata.clone(),
        }
    }

    pub fn client_identity(&self) -> (r: String)
        ensures
            r@ == client_identity_of(self.id@),
    {
        let mut r = String::from_str("client-");
        r.append(self.id.as_str());
        r
    }

    pub fn manager_identity(&self) -> (r: String)
        ensures
            r@ == manager_identity_of(self.id@),
    {
        manager_identity_for(self.id.as_str())
    }

    /// The client may join, publish and subscribe; nothing more.
    pub fn client_grant(&self) -> (r: TokenGrant)
        ensures
            r.room@ == self.room_name@,
            r.room_join && r.can_publish && r.can_subscribe,
            !r.room_admin && !r.hidden && !r.can_publish_data,
            r.ttl_secs == WORKER_TOKEN_TTL_SECS,
    {
        TokenGrant {
            room: self.room_name.clone(),
            room_join: true,
            room_admin: false,
            hidden: false,
            can_publish: true,
            can_subscribe: true,
            can_publish_data: false,
            ttl_secs: WORKER_TOKEN_TTL_SECS,
        }
    }

    /// The engine joins hidden, as the room's administrator.
    pub fn manager_grant(&self) -> (r: TokenGrant)
        ensures
            r.room@ == self.room_name@,
            r.room_join && r.room_admin && r.hidden && r.can_publish && r.can_subscribe,
            !r.can_publish_data,
            r.ttl_secs == MANAGER_TOKEN_TTL_SECS,
    {
        TokenGrant {
            room: self.room_name.clone(),
            room_join: true,
            room_admin: true,
            hidden: true,
            can_publish: true,
            can_subscribe: true,
            can_publish_data: false,
            ttl_secs: MANAGER_TOKEN_TTL_SECS,
        }
    }

    /// A worker may join, publish, subscribe and publish data, for hours.
    pub fn worker_grant(&self) -> (r: TokenGrant)
        ensures
            r.room@ == self.room_name@,
            r.room_join && r.can_publish && r.can_subscribe && r.can_publish_data,
            !r.room_admin && !r.hidden,
            r.ttl_secs == WORKER_TOKEN_TTL_SECS,
    {
        TokenGrant {
            room: self.room_name.clone(),
            room_join: true,
            room_admin: false,
            hidden: false,
            can_publish: true,
            can_subscribe: true,
            can_publish_data: true,
            ttl_secs: WORKER_TOKEN_TTL_SECS,
        }
    }

    /// The credential of the requesting client (see [`Session::client_grant`]).
    pub fn generate_client_token(&self, config: &LiveKitConfig) -> (r: Result<String>)
        ensures
            config.api_key@.len() == 0 || config.api_secret@.len() == 0 || self.room_name@.len() == 0
                ==> r is Err && r->Err_0 is LiveKit,
            r is Err ==> r->Err_0 is LiveKit,
    {
        let identity = self.client_identity();
        let grant = self.client_grant();
        mint_outcome(sign_token(config.api_key.as_str(), config.api_secret.as_str(), identity.as_str(), &grant))
    }

    /// The credential of the engine's own hidden participant (see
    /// [`Session::manager_grant`]).
    pub fn generate_room_token(&self, config: &LiveKitConfig) -> (r: Result<String>)
        ensures
            config.api_key@.len() == 0 || config.api_secret@.len() == 0 || self.room_name@.len() == 0
                ==> r is Err && r->Err_0 is LiveKit,
            r is Err ==> r->Err_0 is LiveKit,
    {
        let identity = self.manager_identity();
        let grant = self.manager_grant();
        mint_outcome(sign_token(config.api_key.as_str(), config.api_secret.as_str(), identity.as_str(), &grant))
    }

    /// The credential of worker `service_id`, which joins under its own id
    /// (see [`Session::worker_grant`]).
    pub fn generate_microservice_token(&self, service_id: &str, config: &LiveKitConfig) -> (r: Result<String>)
        ensures
            config.api_key@.len() == 0 || config.api_secret@.len() == 0 || self.room_name@.len() == 0
                || service_id@.len() == 0 ==> r is Err && r->Err_0 is LiveKit,
            r is Err ==> r->Err_0 is LiveKit,
    {
        let grant = self.worker_grant();
        mint_outcome(sign_token(config.api_key.as_str(), config.api_secret.as_str(), service_id, &grant))
    }
}

/// Readiness follows exactly what was observed: starting from a session that
/// waits for its workers and still misses one, observing the workers `ids`
/// one after another adds to the ready set exactly the required ids among
/// them, and the session is `Ready` afterwards exactly when every required
/// worker has been observed; otherwise it is still `WaitingForServices`.
pub proof fn lemma_ready_iff_all_observed(s: SessionView, ids: Seq<Seq<char>>)
    requires
        s.status == SessionStatus::WaitingForServices,
        s.ready.subset_of(s.required_ids()),
        !s.all_ready(),
    ensures
        s.after_marks(ids).registered == s.registered,
        s.after_marks(ids).ready == s.ready.union(ids.to_set().intersect(s.required_ids())),
        s.after_marks(ids).status == (if s.required_ids().subset_of(s.ready.union(ids.to_set())) {
            SessionStatus::Ready
        } else {
            SessionStatus::WaitingForServices
        }),
    decreases ids.len(),
{
    if ids.len() == 0 {
        assert(ids.to_set() =~= Set::empty());
        assert(s.ready.union(ids.to_set().intersect(s.required_ids())) =~= s.ready);
        assert(s.ready.union(ids.to_set()) =~= s.ready);
    } else {
        let init = ids.drop_last();
        let last = ids.last();
        lemma_ready_iff_all_observed(s, init);
        assert(init.push(last) =~= ids);
        init.lemma_push_to_set_commute(last);
        let pre = s.after_marks(init);
        let req = s.required_ids();
        assert(pre.required_ids() == req);
        let ready2 = s.ready.union(ids.to_set().intersect(req));
        if pre.marks_new(last) {
            assert(pre.ready.insert(last) =~= ready2);
        } else {
            assert(pre.ready =~= ready2);
        }
        assert(s.ready.union(ids.to_set()) =~= s.ready.union(init.to_set()).insert(last));
        if req.subset_of(s.ready.union(init.to_set())) {
            assert(req.subset_of(pre.ready));
        }
        assert(req.subset_of(ready2) == req.subset_of(s.ready.union(ids.to_set())));
    }
}

/// Observing a worker twice changes the session once: after the first
/// observation the same id is no longer new, and a second one is a no-op.
pub proof fn lemma_mark_idempotent(s: SessionView, id: Seq<char>)
    ensures
        !s.after_mark(id).marks_new(id),
        s.after_mark(id).after_mark(id) == s.after_mark(id),
{
}

} // verus!
