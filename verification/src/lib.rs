//! A single-decree Paxos replica: the proposer's two-phase quorum protocol,
//! the acceptor's promise/accept state machine, and the durable encoding of
//! the acceptor's vote. Network and disk I/O live outside the library; every
//! decision the protocol makes is verified here.

use vstd::prelude::*;

pub mod acceptor;
pub mod codec;
pub mod paxos;
pub mod proposer;
pub mod record;
pub mod safety;

verus! {

/// Size of a majority quorum among `n` replicas: any two such quorums
/// share at least one replica.
pub open spec fn spec_majority(n: int) -> int {
    n / 2 + 1
}

} // verus!
