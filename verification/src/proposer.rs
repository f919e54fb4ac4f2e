//! The proposer's side of the protocol: proposal identifiers and the
//! Phase 1 tally rules.

use vstd::prelude::*;

use crate::acceptor::PrepareResponseModel;
use crate::record::AcceptedModel;

verus! {

/// Allocates this replica's proposal identifiers: strictly increasing, and
/// raised past any promise seen in a tally so the next attempt can outbid.
#[derive(Debug)]
pub struct Proposer {
    pub proposal_id: u64,
}

impl Proposer {
    /// A fresh proposer; identifiers are not recovered across restarts.
    pub fn new() -> (p: Proposer)
        ensures
            p.proposal_id == 0,
    {
        Proposer { proposal_id: 0 }
    }

    /// Allocates the identifier for the next proposal attempt.
    pub fn next_id(&mut self) -> (pid: u64)
        requires
            old(self).proposal_id < u64::MAX,
        ensures
            pid == old(self).proposal_id + 1,
            final(self).proposal_id == pid,
    {
        self.proposal_id = self.proposal_id + 1;
        self.proposal_id
    }

    /// Raises the counter to a promise observed elsewhere, so that a later
    /// attempt outbids it.
    pub fn observe(&mut self, seen: u64)
        ensures
            final(self).proposal_id == (if seen > old(self).proposal_id {
                seen
            } else {
                old(self).proposal_id
            }),
    {
        if seen > self.proposal_id {
            self.proposal_id = seen;
        }
    }
}

/// The highest promise among a set of prepare replies; 0 if there are none.
pub open spec fn max_promised(rs: Seq<PrepareResponseModel>) -> u64
    decreases rs.len(),
{
    if rs.len() == 0 {
        0u64
    } else {
        let m = max_promised(rs.drop_last());
        if rs.last().proposal_id > m {
            rs.last().proposal_id
        } else {
            m
        }
    }
}

/// The accepted entry a Phase 1 tally adopts: the one carried with the
/// highest accepted proposal identifier, or nothing if no reply carries a
/// vote. On equal identifiers the later reply wins; correct runs never
/// accept two values under one identifier, so the tie is harmless.
pub open spec fn best_accepted(rs: Seq<PrepareResponseModel>) -> Option<AcceptedModel>
    decreases rs.len(),
{
    if rs.len() == 0 {
        None
    } else {
        let prev = best_accepted(rs.drop_last());
        match rs.last().proposal_value {
            Some(a) => match prev {
                Some(b) => if a.id >= b.id {
                    Some(a)
                } else {
                    Some(b)
                },
                None => Some(a),
            },
            None => prev,
        }
    }
}

/// Law: the adopted entry carries an identifier at least as high as any
/// vote present in the replies.
pub proof fn lemma_best_accepted_bound(rs: Seq<PrepareResponseModel>, k: int)
    requires
        0 <= k < rs.len(),
        rs[k].proposal_value is Some,
    ensures
        best_accepted(rs) matches Some(b) && b.id >= rs[k].proposal_value->Some_0.id,
    decreases rs.len(),
{
    if k < rs.len() - 1 {
        lemma_best_accepted_bound(rs.drop_last(), k);
    }
}

/// Law: the adopted entry is one of the votes present in the replies.
pub proof fn lemma_best_accepted_member(rs: Seq<PrepareResponseModel>)
    requires
        best_accepted(rs) is Some,
    ensures
        exists|k: int|
            0 <= k < rs.len() && #[trigger] rs[k].proposal_value == best_accepted(rs),
    decreases rs.len(),
{
    if rs.len() > 0 {
        let prev = best_accepted(rs.drop_last());
        if best_accepted(rs) == rs.last().proposal_value {
            assert(rs[rs.len() - 1].proposal_value == best_accepted(rs));
        } else {
            lemma_best_accepted_member(rs.drop_last());
            let k = choose|k: int|
                0 <= k < rs.drop_last().len() && #[trigger] rs.drop_last()[k].proposal_value
                    == best_accepted(rs.drop_last());
            assert(rs[k].proposal_value == best_accepted(rs));
        }
    }
}

/// Law: replies without any vote adopt nothing.
pub proof fn lemma_best_accepted_none(rs: Seq<PrepareResponseModel>)
    requires
        forall|k: int| 0 <= k < rs.len() ==> (#[trigger] rs[k].proposal_value) is None,
    ensures
        best_accepted(rs) is None,
    decreases rs.len(),
{
    if rs.len() > 0 {
        lemma_best_accepted_none(rs.drop_last());
    }
}

} // verus!
