//! Routing units of the cluster topology: a broker group's replica map and a
//! topic's queue metadata.

use vstd::prelude::*;

use rand::seq::IteratorRandom;

use crate::kvmap::{kv_has, kv_map, kv_unique, lemma_kv_contains, lemma_kv_get, lemma_kv_remove};
use crate::lexorder::str_eq;
use crate::MASTER_ID;

verus! {

/// The mathematical value of a replica list: ids paired with address
/// character sequences.
pub open spec fn view_pairs(s: Seq<(u64, String)>) -> Seq<(u64, Seq<char>)> {
    s.map_values(|p: (u64, String)| (p.0, p.1@))
}

/// The mathematical value of an optional string.
pub open spec fn view_opt(o: Option<String>) -> Option<Seq<char>> {
    match o {
        Some(s) => Some(s@),
        None => None,
    }
}

/// The effect of a guarded removal on a replica map: the entry under `id`
/// goes away only when the address on record for it is exactly `addr`.
pub open spec fn guarded_remove(m: Map<u64, Seq<char>>, id: u64, addr: Seq<char>) -> Map<
    u64,
    Seq<char>,
> {
    if m.contains_key(id) && m[id] == addr {
        m.remove(id)
    } else {
        m
    }
}

/// Law: guarded removal is idempotent. Removing the same `(id, address)`
/// pair twice leaves the same end state as removing it once: the first
/// removal that matches takes the entry out, so the second finds nothing on
/// record under `id` equal to `addr` and is a no-op.
pub proof fn lemma_guarded_remove_idempotent(m: Map<u64, Seq<char>>, id: u64, addr: Seq<char>)
    ensures
        guarded_remove(guarded_remove(m, id, addr), id, addr) == guarded_remove(m, id, addr),
{
}

/// Relies on `rand::seq::IteratorRandom::choose`: over the exact-size
/// iterator `0..n` it returns `Some` of one of the iterator's elements,
/// sampled uniformly, and `None` only when the iterator is empty.
#[verifier::external_body]
fn random_index(n: usize) -> (r: usize)
    requires
        0 < n,
    ensures
        r < n,
{
    match (0..n).choose(&mut rand::rng()) {
        Some(i) => i,
        None => 0,
    }
}

/// One logical broker group: a cluster label, a broker name, and the map
/// from replica id to network address. Replica id [`MASTER_ID`] is the
/// master replica.
#[derive(Debug, Clone)]
pub struct BrokerData {
    cluster: String,
    broker_name: String,
    broker_addrs: Vec<(u64, String)>,
    zone_name: Option<String>,
    enable_acting_master: bool,
}

impl BrokerData {
    pub closed spec fn spec_cluster(&self) -> Seq<char> {
        self.cluster@
    }

    pub closed spec fn spec_broker_name(&self) -> Seq<char> {
        self.broker_name@
    }

    pub closed spec fn spec_zone_name(&self) -> Option<Seq<char>> {
        view_opt(self.zone_name)
    }

    pub closed spec fn spec_enable_acting_master(&self) -> bool {
        self.enable_acting_master
    }

    /// The registered replicas, in registration order.
    pub closed spec fn replicas(&self) -> Seq<(u64, Seq<char>)> {
        view_pairs(self.broker_addrs@)
    }

    /// The replica map: replica id to address.
    pub open spec fn addr_map(&self) -> Map<u64, Seq<char>> {
        kv_map(self.replicas())
    }

    /// Replica ids within a group are unique.
    pub open spec fn wf(&self) -> bool {
        kv_unique(self.replicas())
    }

    pub fn new(
        cluster: String,
        broker_name: String,
        broker_addrs: Vec<(u64, String)>,
        zone_name: Option<String>,
    ) -> (r: BrokerData)
        requires
            kv_unique(view_pairs(broker_addrs@)),
        ensures
            r.wf(),
            r.spec_cluster() == cluster@,
            r.spec_broker_name() == broker_name@,
            r.replicas() == view_pairs(broker_addrs@),
            r.spec_zone_name() == view_opt(zone_name),
            !r.spec_enable_acting_master(),
    {
        BrokerData { cluster, broker_name, broker_addrs, zone_name, enable_acting_master: false }
    }

    pub fn set_cluster(&mut self, cluster: String)
        ensures
            final(self).spec_cluster() == cluster@,
            final(self).spec_broker_name() == old(self).spec_broker_name(),
            final(self).replicas() == old(self).replicas(),
            final(self).spec_zone_name() == old(self).spec_zone_name(),
            final(self).spec_enable_acting_master() == old(self).spec_enable_acting_master(),
    {
        self.cluster = cluster;
    }

    pub fn set_broker_name(&mut self, broker_name: String)
        ensures
            final(self).spec_broker_name() == broker_name@,
            final(self).spec_cluster() == old(self).spec_cluster(),
            final(self).replicas() == old(self).replicas(),
            final(self).spec_zone_name() == old(self).spec_zone_name(),
            final(self).spec_enable_acting_master() == old(self).spec_enable_acting_master(),
    {
        self.broker_name = broker_name;
    }

    pub fn set_broker_addrs(&mut self, broker_addrs: Vec<(u64, String)>)
        requires
            kv_unique(view_pairs(broker_addrs@)),
        ensures
            final(self).wf(),
            final(self).replicas() == view_pairs(broker_addrs@),
            final(self).spec_cluster() == old(self).spec_cluster(),
            final(self).spec_broker_name() == old(self).spec_broker_name(),
            final(self).spec_zone_name() == old(self).spec_zone_name(),
            final(self).spec_enable_acting_master() == old(self).spec_enable_acting_master(),
    {
        self.broker_addrs = broker_addrs;
    }

    pub fn set_zone_name(&mut self, zone_name: Option<String>)
        ensures
            final(self).spec_zone_name() == view_opt(zone_name),
            final(self).spec_cluster() == old(self).spec_cluster(),
            final(self).spec_broker_name() == old(self).spec_broker_name(),
            final(self).replicas() == old(self).replicas(),
            final(self).spec_enable_acting_master() == old(self).spec_enable_acting_master(),
    {
        self.zone_name = zone_name;
    }

    pub fn set_enable_acting_master(&mut self, enable_acting_master: bool)
        ensures
            final(self).spec_enable_acting_master() == enable_acting_master,
            final(self).spec_cluster() == old(self).spec_cluster(),
            final(self).spec_broker_name() == old(self).spec_broker_name(),
            final(self).replicas() == old(self).replicas(),
            final(self).spec_zone_name() == old(self).spec_zone_name(),
    {
        self.enable_acting_master = enable_acting_master;
    }

    pub fn cluster(&self) -> (r: &str)
        ensures
            r@ == self.spec_cluster(),
    {
        self.cluster.as_str()
    }

    pub fn broker_name(&self) -> (r: &String)
        ensures
            r@ == self.spec_broker_name(),
    {
        &self.broker_name
    }

    pub fn broker_addrs(&self) -> (r: &Vec<(u64, String)>)
        ensures
            view_pairs(r@) == self.replicas(),
    {
        &self.broker_addrs
    }

    pub fn broker_addrs_mut(&mut self) -> (r: &mut Vec<(u64, String)>)
        ensures
            view_pairs((*r)@) == old(self).replicas(),
            final(self).replicas() == view_pairs((*final(r))@),
            final(self).spec_cluster() == old(self).spec_cluster(),
            final(self).spec_broker_name() == old(self).spec_broker_name(),
            final(self).spec_zone_name() == old(self).spec_zone_name(),
            final(self).spec_enable_acting_master() == old(self).spec_enable_acting_master(),
    {
        &mut self.broker_addrs
    }

    pub fn zone_name(&self) -> (r: &Option<String>)
        ensures
            view_opt(*r) == self.spec_zone_name(),
    {
        &self.zone_name
    }

    pub fn enable_acting_master(&self) -> (r: bool)
        ensures
            r == self.spec_enable_acting_master(),
    {
        self.enable_acting_master
    }

    /// Removes the replica registered under `broker_id`, but only when the
    /// address on record for that id is exactly `broker_addr`; otherwise the
    /// replica map is left as it is.
    pub fn remove_broker_by_addr(&mut self, broker_id: u64, broker_addr: &str)
        requires
            old(self).wf(),
        ensures
            final(self).wf(),
            final(self).addr_map() == guarded_remove(old(self).addr_map(), broker_id, broker_addr@),
            final(self).spec_cluster() == old(self).spec_cluster(),
            final(self).spec_broker_name() == old(self).spec_broker_name(),
            final(self).spec_zone_name() == old(self).spec_zone_name(),
            final(self).spec_enable_acting_master() == old(self).spec_enable_acting_master(),
    {
        let n: usize = self.broker_addrs.len();
        let mut i: usize = 0;
        while i < n
            invariant
                *self == *old(self),
                old(self).wf(),
                n == self.broker_addrs@.len(),
                0 <= i <= n,
                forall|j: int| 0 <= j < i ==> self.replicas()[j].0 != broker_id,
            decreases n - i,
        {
            let matches_id: bool = self.broker_addrs[i].0 == broker_id;
            if matches_id {
                let matches_addr: bool = str_eq(self.broker_addrs[i].1.as_str(), broker_addr);
                proof {
                    lemma_kv_get(old(self).replicas(), i as int);
                }
                if matches_addr {
                    proof {
                        lemma_kv_remove(old(self).replicas(), i as int);
                    }
                    self.broker_addrs.remove(i);
                    proof {
                        assert(self.replicas() =~= old(self).replicas().remove(i as int));
                    }
                }
                return;
            }
            i = i + 1;
        }
        proof {
            assert(!kv_has(self.replicas(), broker_id));
            lemma_kv_contains(self.replicas(), broker_id);
        }
    }

    /// Selects the address to talk to for this group: the master replica's
    /// address when one is registered, otherwise a uniformly chosen address
    /// among the known replicas, and nothing when the group has no replicas.
    pub fn select_broker_addr(&self) -> (r: Option<String>)
        requires
            self.wf(),
        ensures
            self.addr_map().contains_key(MASTER_ID) ==> r is Some && r.unwrap()@
                == self.addr_map()[MASTER_ID],
            !self.addr_map().contains_key(MASTER_ID) && self.replicas().len() > 0 ==> r is Some
                && (exists|k: u64|
                #[trigger] self.addr_map().contains_key(k) && self.addr_map()[k] == r.unwrap()@),
            self.replicas().len() == 0 ==> r is None,
    {
        let n: usize = self.broker_addrs.len();
        let mut i: usize = 0;
        while i < n
            invariant
                n == self.broker_addrs@.len(),
                self.wf(),
                0 <= i <= n,
                forall|j: int| 0 <= j < i ==> self.replicas()[j].0 != MASTER_ID,
            decreases n - i,
        {
            if self.broker_addrs[i].0 == MASTER_ID {
                proof {
                    lemma_kv_get(self.replicas(), i as int);
                }
                return Some(self.broker_addrs[i].1.clone());
            }
            i = i + 1;
        }
        proof {
            assert(!kv_has(self.replicas(), MASTER_ID));
            lemma_kv_contains(self.replicas(), MASTER_ID);
        }
        if n == 0 {
            return None;
        }
        let idx: usize = random_index(n);
        proof {
            lemma_kv_get(self.replicas(), idx as int);
        }
        Some(self.broker_addrs[idx].1.clone())
    }
}

/// Law: master preference is stable. [`BrokerData::select_broker_addr`]
/// pins its result to the master's registered address whenever replica id
/// [`MASTER_ID`] is present, so any two selections on the same group state
/// return that same address, however often they are repeated.
pub proof fn lemma_master_selection_stable(g: BrokerData, r1: Option<String>, r2: Option<String>)
    requires
        g.addr_map().contains_key(MASTER_ID),
        r1 is Some && r1.unwrap()@ == g.addr_map()[MASTER_ID],
        r2 is Some && r2.unwrap()@ == g.addr_map()[MASTER_ID],
    ensures
        r1.unwrap()@ == r2.unwrap()@,
{
}

/// Queue metadata of one broker within a topic: queue counts, the permission
/// bitmask, and the topic-level system flag.
#[derive(Debug, Clone, PartialEq, Eq)]
pub struct QueueData {
    pub broker_name: String,
    pub read_queue_nums: u32,
    pub write_queue_nums: u32,
    pub perm: u32,
    pub topic_sys_flag: u32,
}

impl QueueData {
    pub fn new(
        broker_name: String,
        read_queue_nums: u32,
        write_queue_nums: u32,
        perm: u32,
        topic_sys_flag: u32,
    ) -> (r: QueueData)
        ensures
            r.broker_name@ == broker_name@,
            r.read_queue_nums == read_queue_nums,
            r.write_queue_nums == write_queue_nums,
            r.perm == perm,
            r.topic_sys_flag == topic_sys_flag,
    {
        QueueData { broker_name, read_queue_nums, write_queue_nums, perm, topic_sys_flag }
    }

    pub fn broker_name(&self) -> (r: &String)
        ensures
            r@ == self.broker_name@,
    {
        &self.broker_name
    }

    pub fn read_queue_nums(&self) -> (r: u32)
        ensures
            r == self.read_queue_nums,
    {
        self.read_queue_nums
    }

    pub fn write_queue_nums(&self) -> (r: u32)
        ensures
            r == self.write_queue_nums,
    {
        self.write_queue_nums
    }

    pub fn perm(&self) -> (r: u32)
        ensures
            r == self.perm,
    {
        self.perm
    }

    pub fn topic_sys_flag(&self) -> (r: u32)
        ensures
            r == self.topic_sys_flag,
    {
        self.topic_sys_flag
    }
}

} // verus!
