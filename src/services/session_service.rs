use std::collections::HashMap;
use vstd::prelude::*;

use crate::config::LiveKitConfig;
use crate::domain::microservice::{JoinRoomRequest, MicroserviceInfo, MicroserviceInfoView};
use crate::domain::session::{Session, SessionStatus, SessionView, ids_of, info_views};
use crate::events::{SessionEvent, SessionEventView};
use crate::services::microservice_registry::{MicroserviceRegistry, ServiceTable, resolve_ids};
use crate::utils::errors::Result;

verus! {

/// A request to create a session.
#[derive(Debug)]
pub struct CreateSessionRequest {
    pub user_identity: String,
    pub user_name: Option<String>,
    pub room_name: Option<String>,
    pub metadata: Option<HashMap<String, String>>,
    pub required_services: Option<Vec<String>>,
}

/// A join instruction and the worker endpoint it goes to.
#[derive(Debug)]
pub struct JoinNotification {
    pub endpoint: String,
    pub request: JoinRoomRequest,
}

/// Relies on uuid's Uuid::new_v4 and its Display: a random id in the
/// hyphenated form, which has 36 characters.
#[verifier::external_body]
fn random_session_id() -> (r: String)
    ensures
        r@.len() == 36,
{
    uuid::Uuid::new_v4().to_string()
}

/// The room name of a session: the one asked for, else `room-` and the
/// session id.
pub open spec fn room_name_of(session_id: Seq<char>, requested: Option<Seq<char>>) -> Seq<char> {
    match requested {
        Some(name) => name,
        None => "room-"@ + session_id,
    }
}

/// `result` is what the registry `table` gives for the worker ids asked for:
/// the available ones among them in that order, or, when none are named,
/// every available worker once, in some order.
pub open spec fn resolution(table: ServiceTable, required: Option<Seq<Seq<char>>>, result: Seq<MicroserviceInfoView>) -> bool {
    match required {
        Some(ids) => result == resolve_ids(table, ids),
        None => {
            &&& ids_of(result).no_duplicates()
            &&& forall|i: int| 0 <= i < result.len() ==> {
                let v = #[trigger] result[i];
                &&& table.contains_key(v.service_id)
                &&& table[v.service_id] == v
                &&& v.status.spec_available()
            }
            &&& forall|k: Seq<char>| #[trigger] table.contains_key(k) && table[k].status.spec_available()
                ==> exists|i: int| 0 <= i < result.len() && result[i] == table[k]
        },
    }
}

pub open spec fn ids_view(o: Option<Vec<String>>) -> Option<Seq<Seq<char>>> {
    match o {
        Some(v) => Some(v@.map_values(|s: String| s@)),
        None => None,
    }
}

pub open spec fn name_view(o: Option<String>) -> Option<Seq<char>> {
    match o {
        Some(s) => Some(s@),
        None => None,
    }
}

/// The workers a session needs: those named, if any are named (unknown or
/// unavailable ones are dropped), else every available worker.
pub fn resolve_services(registry: &MicroserviceRegistry, required: &Option<Vec<String>>) -> (r: Vec<MicroserviceInfo>)
    requires
        registry.wf(),
    ensures
        resolution(registry@, ids_view(*required), info_views(r@)),
{
    match required {
        Some(ids) => {
            let found = registry.get_services_by_ids(ids.as_slice());
            match found {
                Ok(v) => v,
                Err(_) => Vec::new(),
            }
        },
        None => {
            let found = registry.get_all_available_services();
            match found {
                Ok(v) => {
                    proof {
                        let res = info_views(v@);
                        assert forall|i: int| 0 <= i < res.len() implies {
                            let x = #[trigger] res[i];
                            &&& registry@.contains_key(x.service_id)
                            &&& registry@[x.service_id] == x
                            &&& x.status.spec_available()
                        } by {
                            assert(res[i] == v@[i]@);
                        }
                        assert forall|k: Seq<char>| #[trigger] registry@.contains_key(k) && registry@[k].status.spec_available()
                            implies exists|i: int| 0 <= i < res.len() && res[i] == registry@[k] by {
                            let i = choose|i: int| 0 <= i < v@.len() && v@[i]@ == registry@[k];
                            assert(res[i] == v@[i]@);
                        }
                    }
                    v
                },
                Err(_) => Vec::new(),
            }
        },
    }
}

/// Steps one to three of creating a session, for a given session id: the
/// room name, the required workers as the registry has them now (a snapshot
/// by value), and the session itself, still `Creating`.
pub fn build_session(session_id: String, request: CreateSessionRequest, registry: &MicroserviceRegistry) -> (r: Session)
    requires
        registry.wf(),
    ensures
        r.wf(),
        r@.id == session_id@,
        r@.room_name == room_name_of(session_id@, name_view(request.room_name)),
        r@.status == SessionStatus::Creating,
        r@.client_token is None,
        r@.ready == Set::<Seq<char>>::empty(),
        resolution(registry@, ids_view(request.required_services), r@.registered),
        r@.metadata == match request.metadata { Some(m) => m@, None => Map::<String, String>::empty() },
{
    let room_name = match request.room_name {
        Some(name) => name,
        None => {
            let mut name = String::from_str("room-");
            name.append(session_id.as_str());
            name
        },
    };
    let services = resolve_services(registry, &request.required_services);
    let metadata = match request.metadata {
        Some(m) => m,
        None => HashMap::new(),
    };
    let ghost sid = session_id@;
    let ghost rn = room_name@;
    let ghost md = metadata@;
    let mut session = Session::new(session_id, room_name, metadata);
    let ghost all = info_views(services@);
    let total = services.len();
    let mut i: usize = 0;
    let mut rest = services;
    assert(info_views(rest@) =~= all.skip(0));
    while rest.len() > 0
        invariant
            session.wf(),
            session.status == SessionStatus::Creating,
            session@.status == SessionStatus::Creating,
            session@.ready == Set::<Seq<char>>::empty(),
            session@.client_token is None,
            i + rest@.len() == all.len(),
            all.len() == total,
            session@.id == sid,
            session@.room_name == rn,
            session@.metadata == md,
            session@.registered == all.take(i as int),
            info_views(rest@) == all.skip(i as int),
        decreases rest@.len(),
    {
        let ghost before = session@;
        let ghost old_rest = rest@;
        let service = rest.remove(0);
        assert(service@ == all.skip(i as int)[0]);
        assert(rest@ =~= old_rest.subrange(1, old_rest.len() as int));
        assert forall|k: int| 0 <= k < rest@.len() implies #[trigger] info_views(rest@)[k] == all.skip(i as int + 1)[k] by {
            assert(info_views(old_rest)[k + 1] == all.skip(i as int)[k + 1]);
        }
        assert(info_views(rest@) =~= all.skip(i as int + 1));
        session.add_microservice(service);
        assert(session@.registered =~= all.take(i as int + 1));
        i += 1;
    }
    assert(all.take(i as int) =~= all);
    session
}

/// Steps one to three of creating a session: a fresh random id, then
/// [`build_session`].
pub fn prepare_session(request: CreateSessionRequest, registry: &MicroserviceRegistry) -> (r: Session)
    requires
        registry.wf(),
    ensures
        r.wf(),
        r@.id.len() == 36,
        r@.room_name == room_name_of(r@.id, name_view(request.room_name)),
        r@.status == SessionStatus::Creating,
        r@.client_token is None,
        r@.ready == Set::<Seq<char>>::empty(),
        resolution(registry@, ids_view(request.required_services), r@.registered),
        r@.metadata == match request.metadata { Some(m) => m@, None => Map::<String, String>::empty() },
{
    let id = random_session_id();
    build_session(id, request, registry)
}

/// Step four, once the room exists: a session without required workers is
/// `Ready` at once and needs no monitor; otherwise it waits for its workers
/// and the caller must start its monitor. Returns whether to start one.
pub fn start_session(session: &mut Session) -> (spawn_monitor: bool)
    requires
        old(session).wf(),
        old(session)@.status == SessionStatus::Creating,
    ensures
        final(session).wf(),
        spawn_monitor == (old(session)@.registered.len() > 0),
        final(session)@ == (SessionView {
            status: if spawn_monitor { SessionStatus::WaitingForServices } else { SessionStatus::Ready },
            ..old(session)@
        }),
{
    if session.registered_microservices.len() == 0 {
        session.update_status(SessionStatus::Ready);
        false
    } else {
        session.update_status(SessionStatus::WaitingForServices);
        true
    }
}

/// The join instruction for worker `service` of `session`.
pub fn join_request(session: &Session, service: &MicroserviceInfo, access_token: String, livekit_url: &str) -> (r: JoinNotification)
    ensures
        r.endpoint@ == service.endpoint@,
        r.request.room_name@ == session.room_name@,
        r.request.session_id@ == session.id@,
        r.request.service_identity@ == service.service_id@,
        r.request.access_token@ == access_token@,
        r.request.livekit_url@ == livekit_url@,
{
    JoinNotification {
        endpoint: service.endpoint.clone(),
        request: JoinRoomRequest {
            room_name: session.room_name.clone(),
            session_id: session.id.clone(),
            service_identity: service.service_id.clone(),
            access_token,
            livekit_url: livekit_url.to_owned(),
        },
    }
}

/// Step seven: a credential and a join instruction for every required
/// worker, in order. A credential that cannot be signed fails the whole
/// step; sending the instructions is left to the caller, and its failures
/// never fail the session.
pub fn prepare_join_notifications(session: &Session, config: &LiveKitConfig, livekit_url: &str) -> (r: Result<Vec<JoinNotification>>)
    ensures
        r is Err ==> r->Err_0 is LiveKit,
        session@.registered.len() == 0 ==> r is Ok && r->Ok_0@.len() == 0,
        config.api_key@.len() == 0 && session@.registered.len() > 0 ==> r is Err,
        r is Ok ==> {
            let v = r->Ok_0@;
            &&& v.len() == session@.registered.len()
            &&& forall|i: int| 0 <= i < v.len() ==> {
                let n = #[trigger] v[i];
                &&& n.endpoint@ == session@.registered[i].endpoint
                &&& n.request.room_name@ == session.room_name@
                &&& n.request.session_id@ == session.id@
                &&& n.request.service_identity@ == session@.registered[i].service_id
                &&& n.request.livekit_url@ == livekit_url@
            }
        },
{
    let mut out: Vec<JoinNotification> = Vec::new();
    let mut i: usize = 0;
    while i < session.registered_microservices.len()
        invariant
            i <= session.registered_microservices.len(),
            out@.len() == i,
            config.api_key@.len() == 0 ==> i == 0,
            forall|k: int| 0 <= k < i ==> {
                let n = #[trigger] out@[k];
                &&& n.endpoint@ == session@.registered[k].endpoint
                &&& n.request.room_name@ == session.room_name@
                &&& n.request.session_id@ == session.id@
                &&& n.request.service_identity@ == session@.registered[k].service_id
                &&& n.request.livekit_url@ == livekit_url@
            },
        decreases session.registered_microservices.len() - i,
    {
        let service = &session.registered_microservices[i];
        let token = session.generate_microservice_token(service.service_id.as_str(), config);
        match token {
            Ok(t) => {
                out.push(join_request(session, service, t, livekit_url));
            },
            Err(e) => {
                return Err(e);
            },
        }
        i += 1;
    }
    Ok(out)
}

/// Step seven again for one worker, as the monitor asks when a worker is
/// gone or never came: a fresh credential and join instruction for the first
/// required worker with id `service_id`, or `None` if there is none.
pub fn prepare_join_notification_for(session: &Session, service_id: &str, config: &LiveKitConfig, livekit_url: &str) -> (r: Result<Option<JoinNotification>>)
    ensures
        r is Err ==> r->Err_0 is LiveKit,
        !session@.required_ids().contains(service_id@) ==> r matches Ok(None),
        r matches Ok(None) ==> !session@.required_ids().contains(service_id@),
        r matches Ok(Some(n)) ==> {
            &&& n.request.service_identity@ == service_id@
            &&& n.request.room_name@ == session.room_name@
            &&& n.request.session_id@ == session.id@
            &&& n.request.livekit_url@ == livekit_url@
            &&& exists|i: int| 0 <= i < session@.registered.len()
                && session@.registered[i].service_id == service_id@
                && #[trigger] session@.registered[i].endpoint == n.endpoint@
        },
{
    let key = service_id.to_owned();
    let mut i: usize = 0;
    while i < session.registered_microservices.len()
        invariant
            i <= session.registered_microservices.len(),
            key@ == service_id@,
            forall|k: int| 0 <= k < i ==> session.registered_microservices@[k].service_id@ != service_id@,
        decreases session.registered_microservices.len() - i,
    {
        let service = &session.registered_microservices[i];
        if service.service_id.eq(&key) {
            assert(ids_of(session@.registered)[i as int] == service_id@);
            assert(session@.required_ids().contains(service_id@));
            let token = session.generate_microservice_token(service_id, config);
            match token {
                Ok(t) => {
                    let n = join_request(session, service, t, livekit_url);
                    assert(session@.registered[i as int].endpoint == n.endpoint@);
                    return Ok(Some(n));
                },
                Err(e) => {
                    return Err(e);
                },
            }
        }
        i += 1;
    }
    proof {
        let ids = ids_of(session@.registered);
        if ids.to_set().contains(service_id@) {
            let k = choose|k: int| 0 <= k < ids.len() && ids[k] == service_id@;
            assert(session.registered_microservices@[k].service_id@ == service_id@);
        }
    }
    Ok(None)
}

/// Step eight: the event that announces the new session.
pub fn creation_event(session: &Session, access_token: &String, livekit_url: &str) -> (r: SessionEvent)
    ensures
        r@ == (SessionEventView::SessionCreated {
            session_id: session.id@,
            room_name: session.room_name@,
            access_token: access_token@,
            livekit_url: livekit_url@,
        }),
{
    SessionEvent::SessionCreated {
        session_id: session.id.clone(),
        room_name: session.room_name.clone(),
        access_token: access_token.clone(),
        livekit_url: livekit_url.to_owned(),
    }
}

} // verus!
