//! The topology store: the authoritative view of which network addresses
//! back each broker group, kept in ascending broker-name order so that
//! snapshots are stable and comparison-friendly.

use vstd::prelude::*;

use crate::kvmap::{
    kv_has, kv_map, kv_unique, lemma_kv_contains, lemma_kv_get, lemma_kv_insert_at,
    lemma_kv_remove,
};
use crate::lexorder::{lemma_lex_irrefl, lemma_lex_total, lemma_lex_trans, lex_lt, str_eq,
    str_lex_lt};
use crate::route::{guarded_remove, BrokerData};
use crate::MASTER_ID;

verus! {

/// The groups of a store, viewed as an association list keyed by broker name.
pub open spec fn view_groups(s: Seq<BrokerData>) -> Seq<(Seq<char>, BrokerData)> {
    s.map_values(|g: BrokerData| (g.spec_broker_name(), g))
}

/// Groups stand in strictly ascending broker-name order.
pub open spec fn sorted_by_name(s: Seq<BrokerData>) -> bool {
    forall|i: int, j: int|
        0 <= i < j < s.len() ==> lex_lt(s[i].spec_broker_name(), s[j].spec_broker_name())
}

/// Every group keeps its own invariant.
pub open spec fn groups_wf(s: Seq<BrokerData>) -> bool {
    forall|i: int| 0 <= i < s.len() ==> s[i].wf()
}

proof fn lemma_sorted_unique(s: Seq<BrokerData>)
    requires
        sorted_by_name(s),
    ensures
        kv_unique(view_groups(s)),
{
    assert forall|i: int, j: int|
        0 <= i < j < view_groups(s).len() implies view_groups(s)[i].0 != view_groups(s)[j].0 by {
        assert(view_groups(s)[i].0 == s[i].spec_broker_name());
        assert(view_groups(s)[j].0 == s[j].spec_broker_name());
        if s[i].spec_broker_name() == s[j].spec_broker_name() {
            lemma_lex_irrefl(s[i].spec_broker_name());
        }
    }
}

/// Finds the index of the group registered under `name`, if any.
fn find_group_index(groups: &Vec<BrokerData>, name: &str) -> (r: Option<usize>)
    ensures
        (match r {
            Some(i) => i < groups@.len() && groups@[i as int].spec_broker_name() == name@,
            None => !kv_has(view_groups(groups@), name@),
        }),
{
    let n: usize = groups.len();
    let mut i: usize = 0;
    while i < n
        invariant
            n == groups@.len(),
            0 <= i <= n,
            forall|j: int| 0 <= j < i ==> groups@[j].spec_broker_name() != name@,
        decreases n - i,
    {
        if str_eq(groups[i].broker_name().as_str(), name) {
            return Some(i);
        }
        i = i + 1;
    }
    proof {
        assert forall|j: int|
            0 <= j < view_groups(groups@).len() implies view_groups(groups@)[j].0 != name@ by {
            assert(view_groups(groups@)[j].0 == groups@[j].spec_broker_name());
        }
    }
    None
}

/// Finds the first index whose broker name is not below `name`; groups are
/// assumed sorted, so this is where `name` belongs.
fn insert_position(groups: &Vec<BrokerData>, name: &str) -> (pos: usize)
    ensures
        pos <= groups@.len(),
        forall|j: int| 0 <= j < pos ==> lex_lt(groups@[j].spec_broker_name(), name@),
        pos < groups@.len() ==> !lex_lt(groups@[pos as int].spec_broker_name(), name@),
{
    let n: usize = groups.len();
    let mut pos: usize = 0;
    while pos < n
        invariant
            n == groups@.len(),
            0 <= pos <= n,
            forall|j: int| 0 <= j < pos ==> lex_lt(groups@[j].spec_broker_name(), name@),
        decreases n - pos,
    {
        if !str_lex_lt(groups[pos].broker_name().as_str(), name) {
            return pos;
        }
        pos = pos + 1;
    }
    pos
}

/// The shared routing table from logical broker-group name to the group's
/// replica map. Selection, upsert and guarded removal answer the cluster's
/// "who do I talk to for group G" question.
#[derive(Debug, Clone)]
pub struct TopologyStore {
    groups: Vec<BrokerData>,
}

impl TopologyStore {
    /// The groups in storage order (ascending broker name when well formed).
    pub closed spec fn group_seq(&self) -> Seq<BrokerData> {
        self.groups@
    }

    /// The store's mathematical value: broker name to group.
    pub open spec fn group_map(&self) -> Map<Seq<char>, BrokerData> {
        kv_map(view_groups(self.group_seq()))
    }

    pub open spec fn wf(&self) -> bool {
        sorted_by_name(self.group_seq()) && groups_wf(self.group_seq())
    }

    pub fn new() -> (r: TopologyStore)
        ensures
            r.wf(),
            r.group_seq().len() == 0,
            r.group_map() == Map::<Seq<char>, BrokerData>::empty(),
    {
        let r = TopologyStore { groups: Vec::new() };
        proof {
            assert(view_groups(r.groups@).len() == 0);
        }
        r
    }

    /// Inserts the group, or replaces the group already registered under the
    /// same broker name. Future selections see the update immediately.
    pub fn upsert_group(&mut self, group: BrokerData)
        requires
            old(self).wf(),
            group.wf(),
        ensures
            final(self).wf(),
            final(self).group_map() == old(self).group_map().insert(
                group.spec_broker_name(),
                group,
            ),
    {
        let ghost gname = group.spec_broker_name();
        let ghost s0 = self.groups@;
        let pos: usize = insert_position(&self.groups, group.broker_name().as_str());
        let replace: bool = pos < self.groups.len() && str_eq(
            self.groups[pos].broker_name().as_str(),
            group.broker_name().as_str(),
        );
        proof {
            lemma_sorted_unique(s0);
        }
        if replace {
            proof {
                lemma_kv_get(view_groups(s0), pos as int);
                lemma_kv_remove(view_groups(s0), pos as int);
            }
            self.groups.remove(pos);
            let ghost s1 = self.groups@;
            proof {
                assert(view_groups(s1) =~= view_groups(s0).remove(pos as int));
                lemma_kv_contains(view_groups(s1), gname);
                lemma_kv_insert_at(view_groups(s1), pos as int, gname, group);
            }
            self.groups.insert(pos, group);
            proof {
                assert(view_groups(self.groups@) =~= view_groups(s1).insert(
                    pos as int,
                    (gname, group),
                ));
                assert(self.group_map() =~= old(self).group_map().insert(gname, group));
                assert forall|i: int, j: int|
                    0 <= i < j < self.groups@.len() implies lex_lt(
                    self.groups@[i].spec_broker_name(),
                    self.groups@[j].spec_broker_name(),
                ) by {
                    assert(self.groups@[i].spec_broker_name() == s0[i].spec_broker_name());
                    assert(self.groups@[j].spec_broker_name() == s0[j].spec_broker_name());
                }
                assert forall|i: int| 0 <= i < self.groups@.len() implies self.groups@[i].wf() by {
                    if i != pos {
                        assert(self.groups@[i] == s0[i]);
                    }
                }
            }
        } else {
            proof {
                if pos < s0.len() {
                    lemma_lex_total(s0[pos as int].spec_broker_name(), gname);
                }
                assert forall|j: int|
                    0 <= j < view_groups(s0).len() implies view_groups(s0)[j].0 != gname by {
                    assert(view_groups(s0)[j].0 == s0[j].spec_broker_name());
                    if j < pos {
                        lemma_lex_irrefl(gname);
                    } else {
                        assert(!lex_lt(s0[pos as int].spec_broker_name(), gname));
                        assert(lex_lt(gname, s0[pos as int].spec_broker_name()));
                        if j > pos {
                            lemma_lex_trans(
                                gname,
                                s0[pos as int].spec_broker_name(),
                                s0[j].spec_broker_name(),
                            );
                        }
                        lemma_lex_irrefl(gname);
                    }
                }
                lemma_kv_insert_at(view_groups(s0), pos as int, gname, group);
            }
            self.groups.insert(pos, group);
            proof {
                assert(view_groups(self.groups@) =~= view_groups(s0).insert(
                    pos as int,
                    (gname, group),
                ));
                assert(self.group_map() =~= old(self).group_map().insert(gname, group));
                assert forall|i: int, j: int|
                    0 <= i < j < self.groups@.len() implies lex_lt(
                    self.groups@[i].spec_broker_name(),
                    self.groups@[j].spec_broker_name(),
                ) by {
                    let a = self.groups@[i];
                    let b = self.groups@[j];
                    if i < pos && j == pos {
                    } else if i == pos && j > pos {
                        assert(b == s0[j - 1]);
                        assert(!lex_lt(s0[pos as int].spec_broker_name(), gname));
                        assert(lex_lt(gname, s0[pos as int].spec_broker_name()));
                        if j - 1 > pos {
                            lemma_lex_trans(
                                gname,
                                s0[pos as int].spec_broker_name(),
                                s0[j - 1].spec_broker_name(),
                            );
                        }
                    } else if i < pos && j > pos {
                        assert(a == s0[i]);
                        assert(b == s0[j - 1]);
                    } else if j < pos {
                    } else if i > pos {
                    }
                }
                assert forall|i: int| 0 <= i < self.groups@.len() implies self.groups@[i].wf() by {
                    if i < pos {
                        assert(self.groups@[i] == s0[i]);
                    } else if i > pos {
                        assert(self.groups@[i] == s0[i - 1]);
                    }
                }
            }
        }
    }

    /// Removes the `(replica_id, address)` pair of the named group, but only
    /// when `address` is exactly what is on record under that id; otherwise,
    /// and for an unknown group, this is a no-op.
    pub fn remove_replica(&mut self, group_name: &str, replica_id: u64, address: &str)
        requires
            old(self).wf(),
        ensures
            final(self).wf(),
            final(self).group_map().dom() == old(self).group_map().dom(),
            !old(self).group_map().contains_key(group_name@)
                ==> final(self).group_map() == old(self).group_map(),
            forall|n: Seq<char>|
                #[trigger] old(self).group_map().contains_key(n) && n != group_name@
                    ==> final(self).group_map()[n] == old(self).group_map()[n],
            old(self).group_map().contains_key(group_name@) ==> ({
                let g = old(self).group_map()[group_name@];
                let g2 = final(self).group_map()[group_name@];
                &&& g2.wf()
                &&& g2.spec_broker_name() == g.spec_broker_name()
                &&& g2.spec_cluster() == g.spec_cluster()
                &&& g2.spec_zone_name() == g.spec_zone_name()
                &&& g2.spec_enable_acting_master() == g.spec_enable_acting_master()
                &&& g2.addr_map() == guarded_remove(g.addr_map(), replica_id, address@)
            }),
    {
        let ghost s0 = self.groups@;
        proof {
            lemma_sorted_unique(s0);
        }
        let found: Option<usize> = find_group_index(&self.groups, group_name);
        match found {
            None => {
                proof {
                    lemma_kv_contains(view_groups(s0), group_name@);
                }
            },
            Some(i) => {
                proof {
                    lemma_kv_get(view_groups(s0), i as int);
                    lemma_kv_remove(view_groups(s0), i as int);
                }
                let mut g = self.groups.remove(i);
                let ghost s1 = self.groups@;
                proof {
                    assert(view_groups(s1) =~= view_groups(s0).remove(i as int));
                    assert(g.wf());
                }
                g.remove_broker_by_addr(replica_id, address);
                proof {
                    lemma_kv_contains(view_groups(s1), g.spec_broker_name());
                    lemma_kv_insert_at(view_groups(s1), i as int, g.spec_broker_name(), g);
                }
                let ghost g2 = g;
                self.groups.insert(i, g);
                proof {
                    assert(view_groups(self.groups@) =~= view_groups(s1).insert(
                        i as int,
                        (g2.spec_broker_name(), g2),
                    ));
                    assert(self.group_map() =~= old(self).group_map().insert(
                        g2.spec_broker_name(),
                        g2,
                    ));
                    assert(self.group_map().dom() =~= old(self).group_map().dom());
                    assert forall|p: int, q: int|
                        0 <= p < q < self.groups@.len() implies lex_lt(
                        self.groups@[p].spec_broker_name(),
                        self.groups@[q].spec_broker_name(),
                    ) by {
                        assert(self.groups@[p].spec_broker_name() == s0[p].spec_broker_name());
                        assert(self.groups@[q].spec_broker_name() == s0[q].spec_broker_name());
                    }
                    assert forall|p: int|
                        0 <= p < self.groups@.len() implies self.groups@[p].wf() by {
                        if p != i {
                            assert(self.groups@[p] == s0[p]);
                        }
                    }
                }
            },
        }
    }

    /// Resolves an address for the named group: the master when registered,
    /// otherwise a uniformly chosen replica address, and nothing for an
    /// unknown or emptied group.
    pub fn select_address(&self, group_name: &str) -> (r: Option<String>)
        requires
            self.wf(),
        ensures
            !self.group_map().contains_key(group_name@) ==> r is None,
            self.group_map().contains_key(group_name@) ==> ({
                let g = self.group_map()[group_name@];
                &&& (g.addr_map().contains_key(MASTER_ID) ==> r is Some && r.unwrap()@
                    == g.addr_map()[MASTER_ID])
                &&& (!g.addr_map().contains_key(MASTER_ID) && g.replicas().len() > 0 ==> r is Some
                    && (exists|k: u64|
                    #[trigger] g.addr_map().contains_key(k) && g.addr_map()[k] == r.unwrap()@))
                &&& (g.replicas().len() == 0 ==> r is None)
            }),
    {
        proof {
            lemma_sorted_unique(self.groups@);
        }
        let found: Option<usize> = find_group_index(&self.groups, group_name);
        match found {
            None => {
                proof {
                    lemma_kv_contains(view_groups(self.groups@), group_name@);
                }
                None
            },
            Some(i) => {
                proof {
                    lemma_kv_get(view_groups(self.groups@), i as int);
                }
                self.groups[i].select_broker_addr()
            },
        }
    }

    /// All known groups, in ascending broker-name order: the deterministic
    /// topology snapshot used for comparison and export.
    pub fn list_groups_sorted(&self) -> (r: Vec<&BrokerData>)
        ensures
            r@.len() == self.group_seq().len(),
            forall|i: int| 0 <= i < r@.len() ==> *r@[i] == self.group_seq()[i],
    {
        let n: usize = self.groups.len();
        let mut r: Vec<&BrokerData> = Vec::new();
        let mut i: usize = 0;
        while i < n
            invariant
                n == self.groups@.len(),
                0 <= i <= n,
                r@.len() == i,
                forall|j: int| 0 <= j < i ==> *r@[j] == self.groups@[j],
            decreases n - i,
        {
            r.push(&self.groups[i]);
            i = i + 1;
        }
        r
    }
}

} // verus!
