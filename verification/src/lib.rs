//! Coordination core of a distributed message-broker cluster.
//!
//! Three tightly coupled pieces, each with verified contracts: the topology
//! store resolves a logical broker group to a live network address under
//! partial failure ([`topology`], [`route`]); the dispatch framework
//! interprets inbound control requests by operation code and emits at most
//! one reply per request ([`dispatch`]); and the transaction check-back
//! coordinator resolves the fate of half (prepared) messages whose
//! producers never committed or rolled back, racing replies against
//! timeouts so that every transaction observes exactly one terminal
//! transition ([`transaction`], [`outcome`]).

pub mod dispatch;
pub mod kvmap;
pub mod lexorder;
pub mod outcome;
pub mod route;
pub mod topology;
pub mod transaction;

use vstd::prelude::*;

verus! {

/// Replica id that designates the master replica of a broker group.
pub const MASTER_ID: u64 = 0;

} // verus!
