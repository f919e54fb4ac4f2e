//! One replica's consensus engine: the proposer's two-phase tallies around
//! its own acceptor.
//!
//! The embedding code performs the network fan-out and the disk writes; it
//! calls [`Paxos::begin_propose`], sends the prepare requests, routes the
//! local prepare through [`Paxos::on_prepare`], and hands every successful
//! reply to [`Paxos::finish_prepare`]; then likewise for the accept round
//! with [`Paxos::on_accept`] and [`Paxos::finish_accept`]. Every decision —
//! quorum counting, adoption of a previously accepted value, preemption —
//! is made and verified here.

use vstd::prelude::*;

use crate::acceptor::{accept_step, accept_reply, prepare_step, prepare_reply, AcceptRequest,
    AcceptResponse, AcceptResponseModel, Acceptor, PrepareRequest, PrepareResponse,
    PrepareResponseModel};
use crate::codec::spec_encode;
use crate::proposer::{best_accepted, max_promised, Proposer};
use crate::record::{clone_bytes, Record, RecordModel};
use crate::spec_majority;

verus! {

/// Why a proposal attempt did not choose the caller's value.
#[derive(Debug)]
pub enum ProposeError {
    /// Fewer than a majority of acceptors, this replica included, replied
    /// in one of the two phases.
    QuorumUnavailable,
    /// An acceptor reported a promise above this proposal's identifier:
    /// another proposer has intervened.
    Preempted,
    /// The round completed, but had to carry a previously accepted value;
    /// the decree is bound to the carried value, not the caller's.
    ValueAlreadyChosen(Vec<u8>),
}

/// The models of a sequence of prepare replies.
pub open spec fn prepare_models(rs: Seq<PrepareResponse>) -> Seq<PrepareResponseModel> {
    rs.map_values(|r: PrepareResponse| r@)
}

/// The models of a sequence of accept replies.
pub open spec fn accept_models(rs: Seq<AcceptResponse>) -> Seq<AcceptResponseModel> {
    rs.map_values(|r: AcceptResponse| r@)
}

/// Whether some Phase 2 reply reports a promise above `pid`: the sign that
/// a higher-numbered proposer has intervened.
pub open spec fn any_preempts(rs: Seq<AcceptResponseModel>, pid: u64) -> bool {
    exists|k: int| 0 <= k < rs.len() && (#[trigger] rs[k]).proposal_id > pid
}

/// Compares two byte strings.
pub fn bytes_eq(a: &Vec<u8>, b: &Vec<u8>) -> (r: bool)
    ensures
        r == (a@ == b@),
{
    if a.len() != b.len() {
        return false;
    }
    let mut i: usize = 0;
    while i < a.len()
        invariant
            i <= a.len(),
            a@.len() == b@.len(),
            forall|j: int| 0 <= j < i ==> a@[j] == b@[j],
        decreases a.len() - i,
    {
        if a[i] != b[i] {
            return false;
        }
        i = i + 1;
    }
    proof {
        assert(a@ =~= b@);
    }
    true
}

/// The operations one replica serves to its peers. The embedding code
/// exposes them over the wire; on a reply whose byte component is present,
/// a durability barrier must complete before the reply is released.
pub trait AcceptorService {
    /// What must hold of the service's state between calls.
    spec fn inv(&self) -> bool;

    /// Serves a peer's Phase 1 request.
    fn prepare(&mut self, message: PrepareRequest) -> (r: (PrepareResponse, Option<Vec<u8>>))
        requires
            old(self).inv(),
        ensures
            final(self).inv(),
    ;

    /// Serves a peer's Phase 2 request.
    fn accept(&mut self, message: AcceptRequest) -> (r: (AcceptResponse, Option<Vec<u8>>))
        requires
            old(self).inv(),
        ensures
            final(self).inv(),
    ;
}

/// One replica: its acceptor record, its proposal counter, and the size of
/// the acceptor set it counts quorums against.
#[derive(Debug)]
pub struct Paxos {
    /// How many acceptors the cluster has, this replica included.
    pub n_acceptors: usize,
    /// This replica's proposal counter.
    pub proposer: Proposer,
    /// This replica's acceptor.
    pub acceptor: Acceptor,
}

impl Paxos {
    pub open spec fn wf(self) -> bool {
        self.n_acceptors >= 1 && self.acceptor.wf()
    }

    /// Builds a replica over `n_acceptors` peers (itself included) from the
    /// record recovered from disk, or fresh if there was none.
    pub fn new(n_acceptors: usize, initial: Option<Record>) -> (p: Paxos)
        requires
            n_acceptors >= 1,
            initial matches Some(r) ==> r@.wf(),
        ensures
            p.wf(),
            p.n_acceptors == n_acceptors,
            p.proposer.proposal_id == 0,
            p.acceptor.record@ == (match initial {
                Some(r) => r@,
                None => RecordModel::fresh(),
            }),
    {
        Paxos { n_acceptors, proposer: Proposer::new(), acceptor: Acceptor::new(initial) }
    }

    /// Strict majority of the acceptor set: `floor(N/2) + 1`.
    pub fn majority(&self) -> (m: usize)
        ensures
            m == spec_majority(self.n_acceptors as int),
    {
        self.n_acceptors / 2 + 1
    }

    /// Starts a proposal attempt: allocates a fresh identifier, strictly
    /// above every identifier this proposer has used or observed.
    pub fn begin_propose(&mut self) -> (pid: u64)
        requires
            old(self).wf(),
            old(self).proposer.proposal_id < u64::MAX,
        ensures
            final(self).wf(),
            pid == old(self).proposer.proposal_id + 1,
            final(self).proposer.proposal_id == pid,
            final(self).n_acceptors == old(self).n_acceptors,
            final(self).acceptor == old(self).acceptor,
    {
        self.proposer.next_id()
    }

    /// Routes a prepare — a peer's or this replica's own — through the
    /// local acceptor. The byte component, when present, must reach stable
    /// storage before the response is released.
    pub fn on_prepare(&mut self, message: PrepareRequest) -> (r: (PrepareResponse, Option<Vec<u8>>))
        requires
            old(self).wf(),
        ensures
            final(self).wf(),
            final(self).n_acceptors == old(self).n_acceptors,
            final(self).proposer == old(self).proposer,
            final(self).acceptor.record@ == prepare_step(
                old(self).acceptor.record@,
                message.proposal_id,
            ),
            r.0@ == prepare_reply(old(self).acceptor.record@, message.proposal_id),
            final(self).acceptor.record@.promised_id >= old(self).acceptor.record@.promised_id,
            final(self).acceptor.record@.accepted == old(self).acceptor.record@.accepted,
            message.proposal_id > old(self).acceptor.record@.promised_id ==> (r.1 matches Some(b)
                && b@ == spec_encode(final(self).acceptor.record@)),
            message.proposal_id <= old(self).acceptor.record@.promised_id ==> r.1 is None
                && final(self).acceptor.record@ == old(self).acceptor.record@,
    {
        self.acceptor.on_prepare(message)
    }

    /// Routes an accept through the local acceptor. The byte component,
    /// when present, must reach stable storage before the response is
    /// released.
    pub fn on_accept(&mut self, message: AcceptRequest) -> (r: (AcceptResponse, Option<Vec<u8>>))
        requires
            old(self).wf(),
        ensures
            final(self).wf(),
            final(self).n_acceptors == old(self).n_acceptors,
            final(self).proposer == old(self).proposer,
            final(self).acceptor.record@ == accept_step(
                old(self).acceptor.record@,
                message.proposal_id,
                message.proposal_value@,
            ),
            r.0@ == accept_reply(
                old(self).acceptor.record@,
                message.proposal_id,
                message.proposal_value@,
            ),
            final(self).acceptor.record@.promised_id >= old(self).acceptor.record@.promised_id,
            message.proposal_id >= old(self).acceptor.record@.promised_id ==> (r.1 matches Some(b)
                && b@ == spec_encode(final(self).acceptor.record@)),
            message.proposal_id < old(self).acceptor.record@.promised_id ==> r.1 is None
                && final(self).acceptor.record@ == old(self).acceptor.record@,
    {
        self.acceptor.on_accept(message)
    }

    /// Tallies Phase 1: the successful remote replies plus this replica's
    /// own. Below a majority the attempt fails and nothing changes. With a
    /// quorum, the proposal counter is raised past the highest promise
    /// seen, and the returned value is the one Phase 2 must carry: the
    /// accepted value with the highest identifier among the replies, or
    /// the caller's value if no reply carries a vote.
    pub fn finish_prepare(
        &mut self,
        responses: Vec<PrepareResponse>,
        local: PrepareResponse,
        value: Vec<u8>,
    ) -> (r: Result<Vec<u8>, ProposeError>)
        requires
            old(self).wf(),
            responses@.len() < old(self).n_acceptors,
        ensures
            final(self).wf(),
            final(self).n_acceptors == old(self).n_acceptors,
            final(self).acceptor == old(self).acceptor,
            ({
                let all = prepare_models(responses@).push(local@);
                let quorum = responses@.len() + 1 >= spec_majority(old(self).n_acceptors as int);
                match r {
                    Ok(chosen) => quorum && final(self).proposer.proposal_id == (
                    if max_promised(all) > old(self).proposer.proposal_id {
                        max_promised(all)
                    } else {
                        old(self).proposer.proposal_id
                    }) && chosen@ == (match best_accepted(all) {
                        Some(a) => a.value,
                        None => value@,
                    }),
                    Err(e) => !quorum && (e matches ProposeError::QuorumUnavailable)
                        && final(self).proposer == old(self).proposer,
                }
            }),
    {
        let m = self.majority();
        if responses.len() + 1 < m {
            return Err(ProposeError::QuorumUnavailable);
        }
        let ghost all = prepare_models(responses@).push(local@);
        let mut all_vec = responses;
        all_vec.push(local);
        proof {
            assert(prepare_models(all_vec@) =~= all);
        }
        let len = all_vec.len();
        let mut highest: u64 = 0;
        let mut has_best: bool = false;
        let mut best_id: u64 = 0;
        let mut best_idx: usize = 0;
        let mut i: usize = 0;
        while i < len
            invariant
                i <= len,
                len == all_vec@.len(),
                all == prepare_models(all_vec@),
                highest == max_promised(all.subrange(0, i as int)),
                !has_best ==> best_accepted(all.subrange(0, i as int)) is None,
                has_best ==> best_idx < i && (all[best_idx as int].proposal_value matches Some(b)
                    && b.id == best_id && best_accepted(all.subrange(0, i as int)) == Some(b)),
            decreases len - i,
        {
            let resp_pid = all_vec[i].proposal_id;
            if resp_pid > highest {
                highest = resp_pid;
            }
            match &all_vec[i].proposal_value {
                Some(a) => {
                    if !has_best || a.id >= best_id {
                        has_best = true;
                        best_id = a.id;
                        best_idx = i;
                    }
                },
                None => {},
            }
            i = i + 1;
            proof {
                assert(all.subrange(0, i as int).drop_last() =~= all.subrange(0, i - 1));
                assert(all.subrange(0, i as int).last() == all[i - 1]);
            }
        }
        proof {
            assert(all.subrange(0, len as int) =~= all);
        }
        self.proposer.observe(highest);
        if !has_best {
            Ok(value)
        } else {
            let entry = all_vec.remove(best_idx);
            match entry.proposal_value {
                Some(a) => Ok(a.value),
                None => {
                    proof {
                        assert(false);
                    }
                    Ok(value)
                },
            }
        }
    }

    /// Tallies Phase 2 for the proposal `pid` that carried `chosen`, given
    /// the caller's original `value`. Any reply promising above `pid`
    /// preempts the attempt; below a majority of replies the attempt
    /// fails; otherwise the decree is settled on `chosen`, which was the
    /// caller's value or an adopted one.
    #[verifier::loop_isolation(false)]
    pub fn finish_accept(
        &self,
        pid: u64,
        responses: Vec<AcceptResponse>,
        local: AcceptResponse,
        chosen: &Vec<u8>,
        value: &Vec<u8>,
    ) -> (r: Result<(), ProposeError>)
        requires
            self.wf(),
            responses@.len() < self.n_acceptors,
        ensures
            ({
                let all = accept_models(responses@).push(local@);
                let preempted = any_preempts(all, pid);
                let quorum = responses@.len() + 1 >= spec_majority(self.n_acceptors as int);
                match r {
                    Ok(u) => !preempted && quorum && chosen@ == value@,
                    Err(e) => match e {
                        ProposeError::Preempted => preempted,
                        ProposeError::QuorumUnavailable => !preempted && !quorum,
                        ProposeError::ValueAlreadyChosen(w) => !preempted && quorum && chosen@
                            != value@ && w@ == chosen@,
                    },
                }
            }),
    {
        let ghost all = accept_models(responses@).push(local@);
        let n_responses = responses.len();
        let mut all_vec = responses;
        all_vec.push(local);
        proof {
            assert(accept_models(all_vec@) =~= all);
        }
        let len = all_vec.len();
        let mut i: usize = 0;
        while i < len
            invariant
                i <= len,
                len == all_vec@.len(),
                all == accept_models(all_vec@),
                forall|k: int| 0 <= k < i ==> (#[trigger] all[k]).proposal_id <= pid,
            decreases len - i,
        {
            if all_vec[i].proposal_id > pid {
                proof {
                    assert(all.len() == all_vec@.len());
                    assert(all[i as int] == all_vec@[i as int]@);
                    assert(0 <= (i as int) < all.len() && all[i as int].proposal_id > pid);
                    assert(any_preempts(all, pid));
                }
                return Err(ProposeError::Preempted);
            }
            i = i + 1;
        }
        if n_responses + 1 < self.majority() {
            return Err(ProposeError::QuorumUnavailable);
        }
        if bytes_eq(chosen, value) {
            Ok(())
        } else {
            Err(ProposeError::ValueAlreadyChosen(clone_bytes(chosen)))
        }
    }
}

impl AcceptorService for Paxos {
    open spec fn inv(&self) -> bool {
        self.wf()
    }

    fn prepare(&mut self, message: PrepareRequest) -> (PrepareResponse, Option<Vec<u8>>) {
        self.on_prepare(message)
    }

    fn accept(&mut self, message: AcceptRequest) -> (AcceptResponse, Option<Vec<u8>>) {
        self.on_accept(message)
    }
}

} // verus!
