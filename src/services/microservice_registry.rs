use dashmap::DashMap;
use vstd::prelude::*;

use crate::domain::microservice::{MicroserviceInfo, MicroserviceInfoView, ServiceStatus};
use crate::domain::session::{ids_of, info_views};
use crate::utils::errors::Result;

verus! {

/// Descriptors by service id.
pub type ServiceTable = Map<Seq<char>, MicroserviceInfoView>;

/// What a registry table holds: each key with the descriptor stored under it.
pub uninterp spec fn service_table(m: DashMap<String, MicroserviceInfo>) -> ServiceTable;

/// Relies on DashMap::new: a new map is empty.
#[verifier::external_body]
fn table_new() -> (r: DashMap<String, MicroserviceInfo>)
    ensures
        service_table(r) == ServiceTable::empty(),
{
    DashMap::new()
}

/// Relies on DashMap::insert: afterwards `key` maps to `value`, the rest is kept.
#[verifier::external_body]
fn table_insert(m: &mut DashMap<String, MicroserviceInfo>, key: String, value: MicroserviceInfo)
    ensures
        service_table(*final(m)) == service_table(*old(m)).insert(key@, value@),
{
    m.insert(key, value);
}

/// Relies on DashMap::remove: afterwards `key` maps to nothing, the rest is kept.
#[verifier::external_body]
fn table_remove(m: &mut DashMap<String, MicroserviceInfo>, key: &str)
    ensures
        service_table(*final(m)) == service_table(*old(m)).remove(key@),
{
    m.remove(key);
}

/// Relies on DashMap::get: the entry under `key`, if any, copied out.
#[verifier::external_body]
fn table_get(m: &DashMap<String, MicroserviceInfo>, key: &str) -> (r: Option<MicroserviceInfo>)
    ensures
        r is Some == service_table(*m).contains_key(key@),
        r is Some ==> r->0@ == service_table(*m)[key@],
{
    m.get(key).map(|e| e.duplicate())
}

/// Relies on DashMap::iter: every entry once, as a key and a copy of its
/// value, in no particular order.
#[verifier::external_body]
fn table_entries(m: &DashMap<String, MicroserviceInfo>) -> (r: Vec<(String, MicroserviceInfo)>)
    ensures
        r@.len() == service_table(*m).len(),
        forall|i: int| 0 <= i < r@.len() ==> service_table(*m).contains_key((#[trigger] r@[i]).0@) && service_table(*m)[r@[i].0@] == r@[i].1@,
        forall|i: int, j: int| 0 <= i < r@.len() && 0 <= j < r@.len() && i != j ==> (#[trigger] r@[i]).0@ != (#[trigger] r@[j]).0@,
        forall|k: Seq<char>| #[trigger] service_table(*m).contains_key(k) ==> exists|i: int| 0 <= i < r@.len() && r@[i].0@ == k,
{
    m.iter().map(|e| (e.key().clone(), e.value().duplicate())).collect()
}

/// Relies on DashMap::len: the number of entries.
#[verifier::external_body]
fn table_len(m: &DashMap<String, MicroserviceInfo>) -> (r: usize)
    ensures
        r == service_table(*m).len(),
{
    m.len()
}

/// The available descriptors among `ids`, in the order of `ids`; unknown and
/// unavailable ids are left out.
pub open spec fn resolve_ids(table: Map<Seq<char>, MicroserviceInfoView>, ids: Seq<Seq<char>>) -> Seq<MicroserviceInfoView>
    decreases ids.len(),
{
    if ids.len() == 0 {
        Seq::empty()
    } else {
        let rest = resolve_ids(table, ids.drop_last());
        let id = ids.last();
        if table.contains_key(id) && table[id].status.spec_available() {
            rest.push(table[id])
        } else {
            rest
        }
    }
}

/// The worker services that exist and may be invited into a session.
#[derive(Debug)]
pub struct MicroserviceRegistry {
    services: DashMap<String, MicroserviceInfo>,
}

impl View for MicroserviceRegistry {
    type V = Map<Seq<char>, MicroserviceInfoView>;

    closed spec fn view(&self) -> Map<Seq<char>, MicroserviceInfoView> {
        service_table(self.services)
    }
}

impl MicroserviceRegistry {
    /// Finitely many entries, each stored under its own service id.
    pub open spec fn wf(&self) -> bool {
        &&& self@.dom().finite()
        &&& forall|k: Seq<char>| #[trigger] self@.contains_key(k) ==> self@[k].service_id == k
    }

    pub fn new() -> (r: Self)
        ensures
            r.wf(),
            r@ == ServiceTable::empty(),
    {
        MicroserviceRegistry { services: table_new() }
    }

    /// Stores `service` under its id, replacing any earlier entry.
    pub fn register_service(&mut self, service: MicroserviceInfo) -> (r: Result<()>)
        requires
            old(self).wf(),
        ensures
            final(self).wf(),
            final(self)@ == old(self)@.insert(service.service_id@, service@),
            r is Ok,
    {
        let key = service.service_id.clone();
        table_insert(&mut self.services, key, service);
        Ok(())
    }

    pub fn get_service(&self, service_id: &str) -> (r: Result<Option<MicroserviceInfo>>)
        ensures
            r is Ok,
            r->Ok_0 is Some == self@.contains_key(service_id@),
            r->Ok_0 is Some ==> r->Ok_0->0@ == self@[service_id@],
    {
        Ok(table_get(&self.services, service_id))
    }

    /// The available descriptors among `service_ids`, in that order. Unknown
    /// or unavailable ids are left out without an error.
    pub fn get_services_by_ids(&self, service_ids: &[String]) -> (r: Result<Vec<MicroserviceInfo>>)
        ensures
            r is Ok,
            info_views(r->Ok_0@) == resolve_ids(self@, service_ids@.map_values(|s: String| s@)),
    {
        let ghost ids = service_ids@.map_values(|s: String| s@);
        let mut out: Vec<MicroserviceInfo> = Vec::new();
        let mut i: usize = 0;
        while i < service_ids.len()
            invariant
                i <= service_ids@.len(),
                ids == service_ids@.map_values(|s: String| s@),
                info_views(out@) == resolve_ids(self@, ids.take(i as int)),
            decreases service_ids.len() - i,
        {
            assert(ids.take(i as int + 1).drop_last() =~= ids.take(i as int));
            assert(ids.take(i as int + 1).last() == service_ids@[i as int]@);
            match table_get(&self.services, service_ids[i].as_str()) {
                Some(service) => {
                    if service.is_available() {
                        let ghost before = info_views(out@);
                        out.push(service);
                        assert(info_views(out@) =~= before.push(self@[service_ids@[i as int]@]));
                    }
                },
                None => {},
            }
            i += 1;
        }
        assert(ids.take(i as int) =~= ids);
        Ok(out)
    }

    /// Every available descriptor once, in no particular order.
    pub fn get_all_available_services(&self) -> (r: Result<Vec<MicroserviceInfo>>)
        requires
            self.wf(),
        ensures
            r is Ok,
            ids_of(info_views(r->Ok_0@)).no_duplicates(),
            forall|i: int| 0 <= i < r->Ok_0@.len() ==> {
                let v = #[trigger] r->Ok_0@[i]@;
                &&& self@.contains_key(v.service_id)
                &&& self@[v.service_id] == v
                &&& v.status.spec_available()
            },
            forall|k: Seq<char>| #[trigger] self@.contains_key(k) && self@[k].status.spec_available()
                ==> exists|i: int| 0 <= i < r->Ok_0@.len() && r->Ok_0@[i]@ == self@[k],
    {
        self.collect_services(true)
    }

    /// The descriptors, each once in no particular order; with
    /// `only_available`, the available ones alone.
    fn collect_services(&self, only_available: bool) -> (r: Result<Vec<MicroserviceInfo>>)
        requires
            self.wf(),
        ensures
            r is Ok,
            ids_of(info_views(r->Ok_0@)).no_duplicates(),
            forall|i: int| 0 <= i < r->Ok_0@.len() ==> {
                let v = #[trigger] r->Ok_0@[i]@;
                &&& self@.contains_key(v.service_id)
                &&& self@[v.service_id] == v
                &&& (only_available ==> v.status.spec_available())
            },
            forall|k: Seq<char>| #[trigger] self@.contains_key(k) && (only_available ==> self@[k].status.spec_available())
                ==> exists|i: int| 0 <= i < r->Ok_0@.len() && r->Ok_0@[i]@ == self@[k],
    {
        let all = table_entries(&self.services);
        let mut out: Vec<MicroserviceInfo> = Vec::new();
        let mut i: usize = 0;
        while i < all.len()
            invariant
                self.wf(),
                i <= all@.len(),
                forall|j: int| 0 <= j < all@.len() ==> self@.contains_key((#[trigger] all@[j]).0@) && self@[all@[j].0@] == all@[j].1@,
                forall|a: int, b: int| 0 <= a < all@.len() && 0 <= b < all@.len() && a != b ==> (#[trigger] all@[a]).0@ != (#[trigger] all@[b]).0@,
                forall|k: Seq<char>| #[trigger] self@.contains_key(k) ==> exists|j: int| 0 <= j < all@.len() && all@[j].0@ == k,
                forall|a: int| 0 <= a < out@.len() ==> exists|j: int| 0 <= j < i && (#[trigger] out@[a])@ == all@[j].1@,
                forall|a: int| 0 <= a < out@.len() ==> (only_available ==> (#[trigger] out@[a])@.status.spec_available()),
                forall|j: int| 0 <= j < i && (only_available ==> (#[trigger] all@[j]).1@.status.spec_available())
                    ==> exists|a: int| 0 <= a < out@.len() && out@[a]@ == all@[j].1@,
                ids_of(info_views(out@)).no_duplicates(),
            decreases all@.len() - i,
        {
            if !only_available || all[i].1.is_available() {
                let ghost before = out@;
                assert(self@[all@[i as int].0@].service_id == all@[i as int].0@);
                assert forall|a: int| 0 <= a < before.len() implies before[a]@.service_id != all@[i as int].1@.service_id by {
                    let j = choose|j: int| 0 <= j < i && before[a]@ == all@[j].1@;
                    assert(self@[all@[j].0@].service_id == all@[j].0@);
                    assert(all@[j].0@ != all@[i as int].0@);
                }
                out.push(all[i].1.duplicate());
                assert(ids_of(info_views(out@)) =~= ids_of(info_views(before)).push(all@[i as int].1@.service_id));
                assert forall|a: int, b: int| 0 <= a < out@.len() && 0 <= b < out@.len() && a != b
                    implies ids_of(info_views(out@))[a] != ids_of(info_views(out@))[b] by {
                    if a < before.len() && b < before.len() {
                        assert(ids_of(info_views(before))[a] != ids_of(info_views(before))[b]);
                    }
                }
                assert forall|a: int| 0 <= a < out@.len() implies exists|j: int| 0 <= j < i + 1 && (#[trigger] out@[a])@ == all@[j].1@ by {
                    if a < before.len() {
                        let j = choose|j: int| 0 <= j < i && before[a]@ == all@[j].1@;
                        assert(out@[a] == before[a]);
                    } else {
                        assert(out@[a]@ == all@[i as int].1@);
                    }
                }
                assert forall|j: int| 0 <= j < i + 1 && (only_available ==> (#[trigger] all@[j]).1@.status.spec_available())
                    implies exists|a: int| 0 <= a < out@.len() && out@[a]@ == all@[j].1@ by {
                    if j < i {
                        let a = choose|a: int| 0 <= a < before.len() && before[a]@ == all@[j].1@;
                        assert(out@[a] == before[a]);
                    } else {
                        assert(out@[before.len() as int]@ == all@[j].1@);
                    }
                }
            }
            i += 1;
        }
        proof {
            assert forall|a: int| 0 <= a < out@.len() implies {
                let v = #[trigger] out@[a]@;
                &&& self@.contains_key(v.service_id)
                &&& self@[v.service_id] == v
                &&& (only_available ==> v.status.spec_available())
            } by {
                let j = choose|j: int| 0 <= j < i && out@[a]@ == all@[j].1@;
                assert(self@[all@[j].0@].service_id == all@[j].0@);
            }
            assert forall|k: Seq<char>| #[trigger] self@.contains_key(k) && (only_available ==> self@[k].status.spec_available())
                implies exists|a: int| 0 <= a < out@.len() && out@[a]@ == self@[k] by {
                let j = choose|j: int| 0 <= j < all@.len() && all@[j].0@ == k;
            }
        }
        Ok(out)
    }

    /// Sets the status of the entry under `service_id`, if there is one.
    pub fn update_service_status(&mut self, service_id: &str, status: ServiceStatus) -> (r: Result<()>)
        requires
            old(self).wf(),
        ensures
            final(self).wf(),
            r is Ok,
            old(self)@.contains_key(service_id@) ==> final(self)@ == old(self)@.insert(
                service_id@,
                MicroserviceInfoView { status, ..old(self)@[service_id@] },
            ),
            !old(self)@.contains_key(service_id@) ==> final(self)@ == old(self)@,
    {
        match table_get(&self.services, service_id) {
            Some(mut service) => {
                service.update_status(status);
                let key = service.service_id.clone();
                table_insert(&mut self.services, key, service);
            },
            None => {},
        }
        Ok(())
    }

    pub fn unregister_service(&mut self, service_id: &str) -> (r: Result<()>)
        requires
            old(self).wf(),
        ensures
            final(self).wf(),
            r is Ok,
            final(self)@ == old(self)@.remove(service_id@),
    {
        table_remove(&mut self.services, service_id);
        Ok(())
    }

    /// Every descriptor once, in no particular order.
    pub fn list_all_services(&self) -> (r: Result<Vec<MicroserviceInfo>>)
        requires
            self.wf(),
        ensures
            r is Ok,
            ids_of(info_views(r->Ok_0@)).no_duplicates(),
            forall|i: int| 0 <= i < r->Ok_0@.len() ==> {
                let v = #[trigger] r->Ok_0@[i]@;
                &&& self@.contains_key(v.service_id)
                &&& self@[v.service_id] == v
            },
            forall|k: Seq<char>| #[trigger] self@.contains_key(k) ==> exists|i: int| 0 <= i < r->Ok_0@.len() && r->Ok_0@[i]@ == self@[k],
    {
        self.collect_services(false)
    }

    pub fn get_service_count(&self) -> (r: usize)
        ensures
            r == self@.len(),
    {
        table_len(&self.services)
    }
}

} // verus!
