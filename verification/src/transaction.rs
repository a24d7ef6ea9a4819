//! The transaction check-back coordinator: resolves the terminal state of a
//! half message whose producer never explicitly committed or rolled it back.
//!
//! A check cycle resolves the producer group's address through the topology
//! store, records a correlation entry keyed by transaction id, and asks the
//! producer. A correlated reply, or the exhaustion of the attempt budget,
//! resolves the transaction exactly once: reply and timeout both race to
//! compare-and-remove the same entry, and whichever finds it gone treats
//! that as "already handled", never as an error.

use vstd::prelude::*;

use crate::kvmap::{
    kv_has, kv_map, kv_unique, lemma_kv_contains, lemma_kv_get, lemma_kv_insert_at,
    lemma_kv_remove,
};
use crate::outcome::{MessageExt, OperationResult, ResponseCode};
use crate::topology::TopologyStore;
use crate::MASTER_ID;

verus! {

/// The states a half message moves through while its fate is resolved.
#[derive(Debug, Clone, Copy, PartialEq, Eq, Structural)]
pub enum TxnState {
    Prepared,
    CheckSent,
    Committed,
    RolledBack,
    Discarded,
}

/// What a producer declares in its reply to a check request.
#[derive(Debug, Clone, Copy, PartialEq, Eq, Structural)]
pub enum TransactionResolution {
    Commit,
    Rollback,
}

/// Correlation state of one outstanding check request: which transaction it
/// belongs to, where it was sent, when, and how many attempts were made.
#[derive(Debug, Clone)]
pub struct PendingCheck {
    pub transaction_id: u64,
    pub address: String,
    pub sent_at: u64,
    pub attempts: u32,
}

/// What one check cycle decided for a transaction.
#[derive(Debug, Clone)]
pub enum CheckDirective {
    /// A check for this transaction is already outstanding; nothing is sent.
    AlreadyPending,
    /// Send a check request to this address; a correlation entry is recorded.
    Send { address: String },
    /// No address resolved but budget is left: the message stays prepared
    /// and is re-queued for the next cycle with this attempt count.
    Retry { attempts: u32 },
    /// No address resolved and the budget is exhausted: terminal discard.
    Discard { outcome: OperationResult },
}

/// How a check timeout was disposed of.
#[derive(Debug, Clone)]
pub enum TimeoutDisposition {
    /// No correlation entry existed: a reply already resolved it.
    AlreadyHandled,
    /// Budget left: the entry is removed and the message re-queued.
    Requeued { attempts: u32 },
    /// Budget exhausted: the entry is removed and the message discarded.
    Discarded { outcome: OperationResult },
}

/// The pending checks, viewed as an association list keyed by transaction id.
pub open spec fn view_pending(s: Seq<PendingCheck>) -> Seq<(u64, PendingCheck)> {
    s.map_values(|p: PendingCheck| (p.transaction_id, p))
}

/// The store can resolve an address for this group: the group is known and
/// still has at least one replica.
pub open spec fn resolvable(store: &TopologyStore, name: Seq<char>) -> bool {
    store.group_map().contains_key(name) && store.group_map()[name].replicas().len() > 0
}

/// Finds the correlation entry of a transaction, if one is outstanding.
fn find_pending_index(pending: &Vec<PendingCheck>, transaction_id: u64) -> (r: Option<usize>)
    ensures
        (match r {
            Some(i) => i < pending@.len() && pending@[i as int].transaction_id == transaction_id,
            None => !kv_has(view_pending(pending@), transaction_id),
        }),
{
    let n: usize = pending.len();
    let mut i: usize = 0;
    while i < n
        invariant
            n == pending@.len(),
            0 <= i <= n,
            forall|j: int| 0 <= j < i ==> pending@[j].transaction_id != transaction_id,
        decreases n - i,
    {
        if pending[i].transaction_id == transaction_id {
            return Some(i);
        }
        i = i + 1;
    }
    proof {
        assert forall|j: int|
            0 <= j < view_pending(pending@).len() implies view_pending(pending@)[j].0
            != transaction_id by {
            assert(view_pending(pending@)[j].0 == pending@[j].transaction_id);
        }
    }
    None
}

/// The transaction check-back coordinator: the correlation table of
/// outstanding checks and the configured attempt budget.
#[derive(Debug, Clone)]
pub struct CheckBackCoordinator {
    pending: Vec<PendingCheck>,
    max_attempts: u32,
}

impl CheckBackCoordinator {
    pub closed spec fn pending_entries(&self) -> Seq<(u64, PendingCheck)> {
        view_pending(self.pending@)
    }

    /// The correlation table's mathematical value: transaction id to entry.
    pub open spec fn pending_map(&self) -> Map<u64, PendingCheck> {
        kv_map(self.pending_entries())
    }

    pub closed spec fn spec_max_attempts(&self) -> u32 {
        self.max_attempts
    }

    pub open spec fn wf(&self) -> bool {
        kv_unique(self.pending_entries()) && self.spec_max_attempts() >= 1
    }

    pub fn new(max_attempts: u32) -> (r: CheckBackCoordinator)
        requires
            max_attempts >= 1,
        ensures
            r.wf(),
            r.spec_max_attempts() == max_attempts,
            r.pending_map() == Map::<u64, PendingCheck>::empty(),
    {
        let r = CheckBackCoordinator { pending: Vec::new(), max_attempts };
        proof {
            assert(r.pending_entries().len() == 0);
        }
        r
    }

    pub fn max_attempts(&self) -> (r: u32)
        ensures
            r == self.spec_max_attempts(),
    {
        self.max_attempts
    }

    /// Runs one check cycle for a prepared transaction: resolves an address
    /// for the producer group, records the correlation entry when one is
    /// found, and otherwise counts a failed attempt without sending traffic,
    /// discarding the message once the budget is exhausted.
    pub fn begin_check(
        &mut self,
        transaction_id: u64,
        attempts_so_far: u32,
        prepare_message: Option<MessageExt>,
        store: &TopologyStore,
        group_name: &str,
        now: u64,
    ) -> (r: CheckDirective)
        requires
            old(self).wf(),
            store.wf(),
            attempts_so_far < old(self).spec_max_attempts(),
        ensures
            final(self).wf(),
            final(self).spec_max_attempts() == old(self).spec_max_attempts(),
            old(self).pending_map().contains_key(transaction_id) ==> r is AlreadyPending
                && final(self).pending_map() == old(self).pending_map(),
            !old(self).pending_map().contains_key(transaction_id) && resolvable(store, group_name@)
                ==> (r matches CheckDirective::Send { address } && ({
                let g = store.group_map()[group_name@];
                &&& (g.addr_map().contains_key(MASTER_ID) ==> address@ == g.addr_map()[MASTER_ID])
                &&& (exists|k: u64|
                    #[trigger] g.addr_map().contains_key(k) && g.addr_map()[k] == address@)
                &&& (exists|e: PendingCheck|
                    #[trigger] final(self).pending_map() == old(self).pending_map().insert(
                        transaction_id,
                        e,
                    ) && e.transaction_id == transaction_id && e.address@ == address@ && e.sent_at
                        == now && e.attempts == attempts_so_far + 1)
            })),
            !old(self).pending_map().contains_key(transaction_id) && !resolvable(
                store,
                group_name@,
            ) && attempts_so_far + 1 < old(self).spec_max_attempts() ==> (r matches
                CheckDirective::Retry { attempts } && attempts == attempts_so_far + 1
                && final(self).pending_map() == old(self).pending_map()),
            !old(self).pending_map().contains_key(transaction_id) && !resolvable(
                store,
                group_name@,
            ) && attempts_so_far + 1 == old(self).spec_max_attempts() ==> (r matches
                CheckDirective::Discard { outcome } && outcome.response_code
                == ResponseCode::SystemError && outcome.response_remark is Some
                && outcome.response_remark.unwrap()@.len() > 0 && outcome.prepare_message
                == prepare_message && final(self).pending_map() == old(self).pending_map()),
    {
        let found: Option<usize> = find_pending_index(&self.pending, transaction_id);
        match found {
            Some(i) => {
                proof {
                    assert(self.pending_entries()[i as int].0 == transaction_id);
                    assert(kv_has(self.pending_entries(), transaction_id));
                    lemma_kv_contains(self.pending_entries(), transaction_id);
                }
                CheckDirective::AlreadyPending
            },
            None => {
                proof {
                    lemma_kv_contains(self.pending_entries(), transaction_id);
                }
                match store.select_address(group_name) {
                    Some(address) => {
                        let entry = PendingCheck {
                            transaction_id,
                            address: address.clone(),
                            sent_at: now,
                            attempts: attempts_so_far + 1,
                        };
                        let ghost entry_g = entry;
                        let ghost n0 = self.pending@.len() as int;
                        proof {
                            lemma_kv_insert_at(
                                old(self).pending_entries(),
                                n0,
                                transaction_id,
                                entry_g,
                            );
                        }
                        self.pending.push(entry);
                        proof {
                            assert(self.pending_entries() =~= old(self).pending_entries().insert(
                                n0,
                                (transaction_id, entry_g),
                            ));
                        }
                        CheckDirective::Send { address }
                    },
                    None => {
                        let next: u32 = attempts_so_far + 1;
                        if next < self.max_attempts {
                            CheckDirective::Retry { attempts: next }
                        } else {
                            let remark: String =
                                "no address resolvable for the producer group; check attempt budget exhausted".to_owned();
                            proof {
                                reveal_strlit(
                                    "no address resolvable for the producer group; check attempt budget exhausted",
                                );
                            }
                            CheckDirective::Discard {
                                outcome: OperationResult {
                                    prepare_message,
                                    response_remark: Some(remark),
                                    response_code: ResponseCode::SystemError,
                                },
                            }
                        }
                    },
                }
            },
        }
    }

    /// Resolves a half message whose producer never replies: runs check
    /// cycles — each a resolution attempt followed by a silent timeout —
    /// until the attempt budget is exhausted. The transaction always ends
    /// discarded with a non-success outcome and an explanatory remark, and
    /// no correlation entry remains behind.
    pub fn resolve_without_reply(
        &mut self,
        transaction_id: u64,
        store: &TopologyStore,
        group_name: &str,
        now: u64,
    ) -> (r: OperationResult)
        requires
            old(self).wf(),
            store.wf(),
            !old(self).pending_map().contains_key(transaction_id),
        ensures
            final(self).wf(),
            final(self).spec_max_attempts() == old(self).spec_max_attempts(),
            !final(self).pending_map().contains_key(transaction_id),
            r.response_code == ResponseCode::SystemError,
            r.response_remark is Some && r.response_remark.unwrap()@.len() > 0,
            r.prepare_message is None,
    {
        let mut attempts: u32 = 0;
        loop
            invariant
                self.wf(),
                store.wf(),
                self.spec_max_attempts() == old(self).spec_max_attempts(),
                !self.pending_map().contains_key(transaction_id),
                attempts < self.spec_max_attempts(),
            decreases self.spec_max_attempts() - attempts,
        {
            let ghost pre = *self;
            match self.begin_check(transaction_id, attempts, None, store, group_name, now) {
                CheckDirective::AlreadyPending => {
                    proof {
                        assert(false);
                    }
                },
                CheckDirective::Send { address: _ } => {
                    proof {
                        let e = choose|e: PendingCheck|
                            #[trigger] self.pending_map() == pre.pending_map().insert(
                                transaction_id,
                                e,
                            ) && e.transaction_id == transaction_id && e.attempts == attempts + 1;
                        assert(self.pending_map()[transaction_id] == e);
                    }
                    match self.on_timeout(transaction_id, None) {
                        TimeoutDisposition::AlreadyHandled => {
                            proof {
                                assert(false);
                            }
                        },
                        TimeoutDisposition::Requeued { attempts: next } => {
                            attempts = next;
                        },
                        TimeoutDisposition::Discarded { outcome } => {
                            return outcome;
                        },
                    }
                },
                CheckDirective::Retry { attempts: next } => {
                    attempts = next;
                },
                CheckDirective::Discard { outcome } => {
                    return outcome;
                },
            }
        }
    }

    /// Consumes a correlated reply: the first reply for a transaction wins
    /// and removes the correlation entry; a duplicate or late reply finds no
    /// entry and is dropped silently.
    pub fn on_reply(
        &mut self,
        transaction_id: u64,
        resolution: TransactionResolution,
        prepare_message: Option<MessageExt>,
    ) -> (r: Option<(TxnState, OperationResult)>)
        requires
            old(self).wf(),
        ensures
            final(self).wf(),
            final(self).spec_max_attempts() == old(self).spec_max_attempts(),
            !old(self).pending_map().contains_key(transaction_id) ==> r is None && *final(self)
                == *old(self),
            old(self).pending_map().contains_key(transaction_id) ==> (r matches Some(
                (state, outcome),
            ) && ({
                &&& final(self).pending_map() == old(self).pending_map().remove(transaction_id)
                &&& state == (match resolution {
                    TransactionResolution::Commit => TxnState::Committed,
                    TransactionResolution::Rollback => TxnState::RolledBack,
                })
                &&& outcome.response_code == ResponseCode::Success
                &&& outcome.response_remark is None
                &&& outcome.prepare_message == prepare_message
            })),
    {
        let found: Option<usize> = find_pending_index(&self.pending, transaction_id);
        match found {
            None => {
                proof {
                    lemma_kv_contains(self.pending_entries(), transaction_id);
                }
                None
            },
            Some(i) => {
                proof {
                    assert(self.pending_entries()[i as int].0 == transaction_id);
                    assert(kv_has(self.pending_entries(), transaction_id));
                    lemma_kv_contains(self.pending_entries(), transaction_id);
                    lemma_kv_remove(old(self).pending_entries(), i as int);
                }
                self.pending.remove(i);
                proof {
                    assert(self.pending_entries() =~= old(self).pending_entries().remove(i as int));
                }
                let state: TxnState = match resolution {
                    TransactionResolution::Commit => TxnState::Committed,
                    TransactionResolution::Rollback => TxnState::RolledBack,
                };
                Some(
                    (
                        state,
                        OperationResult {
                            prepare_message,
                            response_remark: None,
                            response_code: ResponseCode::Success,
                        },
                    ),
                )
            },
        }
    }

    /// Disposes of a check timeout: when the correlation entry is still
    /// there it is removed exactly once, and the message is either re-queued
    /// for another cycle or, with the budget exhausted, discarded with a
    /// non-success outcome; when a reply already removed the entry, the
    /// timeout is a no-op.
    pub fn on_timeout(&mut self, transaction_id: u64, prepare_message: Option<MessageExt>) -> (r:
        TimeoutDisposition)
        requires
            old(self).wf(),
        ensures
            final(self).wf(),
            final(self).spec_max_attempts() == old(self).spec_max_attempts(),
            !old(self).pending_map().contains_key(transaction_id) ==> r is AlreadyHandled
                && *final(self) == *old(self),
            old(self).pending_map().contains_key(transaction_id)
                && old(self).pending_map()[transaction_id].attempts < old(self).spec_max_attempts()
                ==> (r matches TimeoutDisposition::Requeued { attempts }
                && attempts == old(self).pending_map()[transaction_id].attempts
                && final(self).pending_map() == old(self).pending_map().remove(transaction_id)),
            old(self).pending_map().contains_key(transaction_id)
                && old(self).pending_map()[transaction_id].attempts >= old(self).spec_max_attempts()
                ==> (r matches TimeoutDisposition::Discarded { outcome } && outcome.response_code
                == ResponseCode::SystemError && outcome.response_remark is Some
                && outcome.response_remark.unwrap()@.len() > 0 && outcome.prepare_message
                == prepare_message
                && final(self).pending_map() == old(self).pending_map().remove(transaction_id)),
    {
        let found: Option<usize> = find_pending_index(&self.pending, transaction_id);
        match found {
            None => {
                proof {
                    lemma_kv_contains(self.pending_entries(), transaction_id);
                }
                TimeoutDisposition::AlreadyHandled
            },
            Some(i) => {
                let attempts: u32 = self.pending[i].attempts;
                proof {
                    assert(self.pending_entries()[i as int].0 == transaction_id);
                    assert(kv_has(self.pending_entries(), transaction_id));
                    lemma_kv_contains(self.pending_entries(), transaction_id);
                    lemma_kv_get(self.pending_entries(), i as int);
                    lemma_kv_remove(old(self).pending_entries(), i as int);
                }
                self.pending.remove(i);
                proof {
                    assert(self.pending_entries() =~= old(self).pending_entries().remove(i as int));
                }
                if attempts < self.max_attempts {
                    TimeoutDisposition::Requeued { attempts }
                } else {
                    let remark: String =
                        "no reply within the check attempt budget; half message discarded".to_owned();
                    proof {
                        reveal_strlit(
                            "no reply within the check attempt budget; half message discarded",
                        );
                    }
                    TimeoutDisposition::Discarded {
                        outcome: OperationResult {
                            prepare_message,
                            response_remark: Some(remark),
                            response_code: ResponseCode::SystemError,
                        },
                    }
                }
            },
        }
    }
}

/// Law: each transaction observes at most one terminal resolution. A reply
/// and a timeout both resolve a transaction by removing its correlation
/// entry from the table (`on_reply`, `on_timeout` above); after either has
/// removed it, the id is no longer in the table, so by those contracts the
/// later of the two finds nothing, answers `None` or `AlreadyHandled`, and
/// leaves the coordinator unchanged.
pub proof fn lemma_resolution_exactly_once(before: Map<u64, PendingCheck>, transaction_id: u64)
    ensures
        !before.remove(transaction_id).contains_key(transaction_id),
{
}

} // verus!
