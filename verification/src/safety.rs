//! Cluster-level safety arguments.
//!
//! These lemmas are stated over a snapshot of every acceptor's record and
//! the models of Phase 1 replies: why two majorities must share an
//! acceptor, why at most one value can be chosen under one proposal
//! identifier, and why a Phase 1 tally gathered from any quorum adopts a
//! value that is already chosen — the step that keeps later proposals from
//! ever carrying a different value.

use vstd::prelude::*;
use vstd::set_lib::{lemma_int_range, lemma_len_subset, lemma_set_disjoint_lens, set_int_range};

use crate::acceptor::{accept_reply, accept_step, prepare_reply, prepare_step,
    PrepareResponseModel};
use crate::proposer::{best_accepted, lemma_best_accepted_bound, lemma_best_accepted_member};
use crate::record::{AcceptedModel, RecordModel};
use crate::spec_majority;

verus! {

/// A set of acceptor indices forming a strict majority of a cluster of `n`.
pub open spec fn is_quorum(q: Set<int>, n: int) -> bool {
    q.finite() && q.subset_of(set_int_range(0, n)) && q.len() >= spec_majority(n)
}

/// Law: any two quorums of one cluster share an acceptor — the pigeonhole
/// argument at the heart of Paxos.
pub proof fn lemma_quorum_intersection(n: int, q1: Set<int>, q2: Set<int>)
    requires
        n >= 1,
        is_quorum(q1, n),
        is_quorum(q2, n),
    ensures
        exists|i: int| q1.contains(i) && q2.contains(i),
{
    if q1.disjoint(q2) {
        lemma_set_disjoint_lens(q1, q2);
        lemma_int_range(0, n);
        lemma_len_subset(q1 + q2, set_int_range(0, n));
        assert(q1.len() + q2.len() <= n);
        assert(2 * (n / 2 + 1) > n);
        assert(false);
    }
    assert(exists|i: int| q1.contains(i) && q2.contains(i)) by {
        assert(!(forall|i: int| #[trigger] q1.contains(i) ==> !q2.contains(i)));
    }
}

/// Every acceptor of `q` voted exactly `(p, v)` in the snapshot `states`.
pub open spec fn quorum_voted_exactly(
    states: Seq<RecordModel>,
    q: Set<int>,
    p: u64,
    v: Seq<u8>,
) -> bool {
    forall|i: int|
        #[trigger] q.contains(i) ==> 0 <= i < states.len() && states[i].accepted == Some(
            AcceptedModel { id: p, value: v },
        )
}

/// `v` is chosen at `p`: some quorum has voted exactly `(p, v)`.
pub open spec fn chosen_at(states: Seq<RecordModel>, p: u64, v: Seq<u8>) -> bool {
    exists|q: Set<int>|
        #[trigger] is_quorum(q, states.len() as int) && quorum_voted_exactly(states, q, p, v)
}

/// Law: at most one value is chosen under one proposal identifier, because
/// the two choosing quorums share an acceptor and that acceptor holds a
/// single vote.
pub proof fn lemma_chosen_unique_at_pid(states: Seq<RecordModel>, p: u64, v: Seq<u8>, w: Seq<u8>)
    requires
        states.len() >= 1,
        chosen_at(states, p, v),
        chosen_at(states, p, w),
    ensures
        v == w,
{
    let n = states.len() as int;
    let q1 = choose|q: Set<int>|
        #[trigger] is_quorum(q, n) && quorum_voted_exactly(states, q, p, v);
    let q2 = choose|q: Set<int>|
        #[trigger] is_quorum(q, n) && quorum_voted_exactly(states, q, p, w);
    lemma_quorum_intersection(n, q1, q2);
    let i = choose|i: int| q1.contains(i) && q2.contains(i);
    assert(states[i].accepted == Some(AcceptedModel { id: p, value: v }));
    assert(states[i].accepted == Some(AcceptedModel { id: p, value: w }));
}

/// Every acceptor of `q` holds a vote whose identifier is at least `p`.
pub open spec fn quorum_accepted_at_least(states: Seq<RecordModel>, q: Set<int>, p: u64) -> bool {
    forall|i: int|
        #[trigger] q.contains(i) ==> 0 <= i < states.len() && (states[i].accepted matches Some(a)
            && a.id >= p)
}

/// Every vote anywhere in the snapshot with identifier at least `p`
/// carries the value `v`.
pub open spec fn votes_at_least_carry(states: Seq<RecordModel>, p: u64, v: Seq<u8>) -> bool {
    forall|i: int|
        0 <= i < states.len() ==> ((#[trigger] states[i].accepted) matches Some(a) ==> (a.id >= p
            ==> a.value == v))
}

/// Law (quorum intersection safety): suppose value `v` is settled at
/// proposal `p` — some quorum holds votes at `p` or above, and every vote
/// at `p` or above carries `v`. Then any Phase 1 tally built from replies
/// that truthfully report the votes of a quorum of acceptors adopts an
/// entry with identifier at least `p` and value `v`: Phase 2 of any such
/// later proposal carries `v` again.
pub proof fn lemma_phase1_adopts_chosen(
    states: Seq<RecordModel>,
    q1: Set<int>,
    p: u64,
    v: Seq<u8>,
    responders: Seq<int>,
    responses: Seq<PrepareResponseModel>,
)
    requires
        states.len() >= 1,
        is_quorum(q1, states.len() as int),
        quorum_accepted_at_least(states, q1, p),
        votes_at_least_carry(states, p, v),
        responders.len() == responses.len(),
        forall|k: int| 0 <= k < responders.len() ==> 0 <= #[trigger] responders[k] < states.len(),
        forall|k: int|
            0 <= k < responses.len() ==> (#[trigger] responses[k]).proposal_value == states[
                responders[k]
            ].accepted,
        is_quorum(responders.to_set(), states.len() as int),
    ensures
        best_accepted(responses) matches Some(b) && b.id >= p && b.value == v,
{
    let n = states.len() as int;
    lemma_quorum_intersection(n, q1, responders.to_set());
    let i = choose|i: int| q1.contains(i) && responders.to_set().contains(i);
    assert(responders.contains(i));
    let k = choose|k: int| 0 <= k < responders.len() && responders[k] == i;
    assert(responses[k].proposal_value == states[i].accepted);
    assert(states[i].accepted matches Some(a) && a.id >= p);
    lemma_best_accepted_bound(responses, k);
    lemma_best_accepted_member(responses);
    let k2 = choose|k2: int|
        0 <= k2 < responses.len() && #[trigger] responses[k2].proposal_value == best_accepted(
            responses,
        );
    assert(states[responders[k2]].accepted == best_accepted(responses));
}

/// Law: a chosen value is in particular settled — its quorum holds votes
/// at `p` or above — which is what a later Phase 1 tally relies on.
pub proof fn lemma_chosen_settles(states: Seq<RecordModel>, p: u64, v: Seq<u8>)
    requires
        chosen_at(states, p, v),
    ensures
        exists|q: Set<int>|
            #[trigger] is_quorum(q, states.len() as int) && quorum_accepted_at_least(states, q, p),
{
    let n = states.len() as int;
    let q = choose|q: Set<int>|
        #[trigger] is_quorum(q, n) && quorum_voted_exactly(states, q, p, v);
    assert(quorum_accepted_at_least(states, q, p));
}

/// Law: once `v` is settled at `p`, it stays settled under any further
/// acceptor step, provided every accept at `p` or above carries `v` — which
/// [`lemma_phase1_adopts_chosen`] guarantees of proposers that tally a
/// quorum. A prepare moves no vote; a granted accept at acceptor `i`
/// replaces its vote with one at the accept's identifier, which is at least
/// the old promise and hence at least `p` whenever `i` sits in the settled
/// quorum.
pub proof fn lemma_settled_stable_under_steps(
    states: Seq<RecordModel>,
    q1: Set<int>,
    p: u64,
    v: Seq<u8>,
    i: int,
    pid: u64,
    value: Seq<u8>,
)
    requires
        quorum_accepted_at_least(states, q1, p),
        votes_at_least_carry(states, p, v),
        0 <= i < states.len(),
        states[i].wf(),
        pid >= p ==> value == v,
    ensures
        quorum_accepted_at_least(states.update(i, prepare_step(states[i], pid)), q1, p),
        votes_at_least_carry(states.update(i, prepare_step(states[i], pid)), p, v),
        quorum_accepted_at_least(states.update(i, accept_step(states[i], pid, value)), q1, p),
        votes_at_least_carry(states.update(i, accept_step(states[i], pid, value)), p, v),
{
    let after_prepare = states.update(i, prepare_step(states[i], pid));
    assert(after_prepare[i].accepted == states[i].accepted);
    assert(forall|j: int| 0 <= j < states.len() && j != i ==> after_prepare[j] == states[j]);

    let after_accept = states.update(i, accept_step(states[i], pid, value));
    assert(forall|j: int| 0 <= j < states.len() && j != i ==> after_accept[j] == states[j]);
    if pid >= states[i].promised_id {
        // the vote moved to (pid, value)
        if q1.contains(i) {
            assert(states[i].accepted matches Some(a) && a.id >= p);
            assert(pid >= p);
        }
    } else {
        assert(after_accept[i] == states[i]);
    }
}

/// Law: a cluster of one replica decides without any remote call. The
/// replica's own prepare reply is a quorum by itself and carries no prior
/// vote, and its own accept reply cannot preempt the proposal, so any
/// proposed value is recorded as given.
pub proof fn lemma_single_replica_propose(pid: u64, value: Seq<u8>)
    requires
        1 <= pid,
    ensures
        ({
            let r0 = RecordModel::fresh();
            let reply = prepare_reply(r0, pid);
            let r1 = prepare_step(r0, pid);
            &&& 1 >= spec_majority(1)
            &&& best_accepted(seq![reply]) is None
            &&& accept_reply(r1, pid, value).proposal_id <= pid
            &&& accept_step(r1, pid, value).accepted == Some(AcceptedModel { id: pid, value })
        }),
{
    let r0 = RecordModel::fresh();
    let reply = prepare_reply(r0, pid);
    assert(seq![reply].drop_last() =~= Seq::<PrepareResponseModel>::empty());
    assert(best_accepted(Seq::<PrepareResponseModel>::empty()) is None);
    assert(seq![reply].last() == reply);
    assert(reply.proposal_value is None);
    assert(best_accepted(seq![reply]) is None);
}

} // verus!
