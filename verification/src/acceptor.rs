//! The acceptor's promise/accept state machine.
//!
//! Each mutating operation hands back the encoded record it requires on
//! stable storage; the embedding code must complete a durability barrier on
//! those bytes before it releases the reply, so that a crash never forgets
//! a promise or a vote that a peer has been told about.

use vstd::prelude::*;

use crate::codec::{spec_encode, store_record};
use crate::record::{clone_accepted_opt, opt_accepted_view, Accepted, AcceptedModel, Record,
    RecordModel};

verus! {

/// Asks the acceptor to promise not to vote below `proposal_id`.
#[derive(Debug)]
pub struct PrepareRequest {
    pub proposal_id: u64,
}

/// The acceptor's promise and its current vote, if any.
#[derive(Debug)]
pub struct PrepareResponse {
    pub proposal_id: u64,
    pub proposal_value: Option<Accepted>,
}

/// Mathematical model of a [`PrepareResponse`].
#[verifier::ext_equal]
pub ghost struct PrepareResponseModel {
    pub proposal_id: u64,
    pub proposal_value: Option<AcceptedModel>,
}

impl View for PrepareResponse {
    type V = PrepareResponseModel;

    open spec fn view(&self) -> PrepareResponseModel {
        PrepareResponseModel {
            proposal_id: self.proposal_id,
            proposal_value: opt_accepted_view(self.proposal_value),
        }
    }
}

/// Asks the acceptor to vote for `proposal_value` at `proposal_id`.
#[derive(Debug)]
pub struct AcceptRequest {
    pub proposal_id: u64,
    pub proposal_value: Vec<u8>,
}

/// On a granted vote, `proposal_id` echoes the request and the value slot
/// is empty; on a rejection, both report the acceptor's current state.
#[derive(Debug)]
pub struct AcceptResponse {
    pub proposal_id: u64,
    pub proposal_value: Option<Accepted>,
}

/// Mathematical model of an [`AcceptResponse`].
#[verifier::ext_equal]
pub ghost struct AcceptResponseModel {
    pub proposal_id: u64,
    pub proposal_value: Option<AcceptedModel>,
}

impl View for AcceptResponse {
    type V = AcceptResponseModel;

    open spec fn view(&self) -> AcceptResponseModel {
        AcceptResponseModel {
            proposal_id: self.proposal_id,
            proposal_value: opt_accepted_view(self.proposal_value),
        }
    }
}

/// How a prepare changes the record: a higher identifier raises the
/// promise and leaves the vote alone; anything else changes nothing.
pub open spec fn prepare_step(r: RecordModel, pid: u64) -> RecordModel {
    if pid > r.promised_id {
        RecordModel { promised_id: pid, accepted: r.accepted }
    } else {
        r
    }
}

/// What a prepare replies: the state after the step, in both cases.
pub open spec fn prepare_reply(r: RecordModel, pid: u64) -> PrepareResponseModel {
    let post = prepare_step(r, pid);
    PrepareResponseModel { proposal_id: post.promised_id, proposal_value: post.accepted }
}

/// How an accept changes the record: at or above the promise it records
/// the vote and raises the promise to the vote's identifier; below the
/// promise it changes nothing.
pub open spec fn accept_step(r: RecordModel, pid: u64, value: Seq<u8>) -> RecordModel {
    if pid >= r.promised_id {
        RecordModel { promised_id: pid, accepted: Some(AcceptedModel { id: pid, value }) }
    } else {
        r
    }
}

/// What an accept replies: an echoed identifier and an empty value slot
/// signal a granted vote; a rejection reports the current state so the
/// proposer learns it was outbid.
pub open spec fn accept_reply(r: RecordModel, pid: u64, value: Seq<u8>) -> AcceptResponseModel {
    if pid >= r.promised_id {
        AcceptResponseModel { proposal_id: pid, proposal_value: None }
    } else {
        AcceptResponseModel { proposal_id: r.promised_id, proposal_value: r.accepted }
    }
}

/// One acceptor: the in-memory copy of its durable record.
#[derive(Debug)]
pub struct Acceptor {
    pub record: Record,
}

impl Acceptor {
    pub open spec fn wf(self) -> bool {
        self.record@.wf()
    }

    /// Starts from the record recovered from disk, or fresh if the state
    /// file was empty or absent.
    pub fn new(loaded: Option<Record>) -> (a: Acceptor)
        requires
            loaded matches Some(r) ==> r@.wf(),
        ensures
            a.wf(),
            a.record@ == (match loaded {
                Some(r) => r@,
                None => RecordModel::fresh(),
            }),
    {
        match loaded {
            Some(r) => Acceptor { record: r },
            None => Acceptor { record: Record::fresh() },
        }
    }

    /// Handles a prepare. The second component, when present, must reach
    /// stable storage before the response is released.
    pub fn on_prepare(&mut self, message: PrepareRequest) -> (r: (PrepareResponse, Option<Vec<u8>>))
        requires
            old(self).wf(),
        ensures
            final(self).wf(),
            final(self).record@ == prepare_step(old(self).record@, message.proposal_id),
            r.0@ == prepare_reply(old(self).record@, message.proposal_id),
            final(self).record@.promised_id >= old(self).record@.promised_id,
            final(self).record@.accepted == old(self).record@.accepted,
            message.proposal_id > old(self).record@.promised_id ==> (r.1 matches Some(b)
                && b@ == spec_encode(final(self).record@)),
            message.proposal_id <= old(self).record@.promised_id ==> r.1 is None
                && final(self).record@ == old(self).record@,
    {
        if message.proposal_id > self.record.promised_id {
            self.record.promised_id = message.proposal_id;
            let bytes = store_record(&self.record);
            let response = PrepareResponse {
                proposal_id: self.record.promised_id,
                proposal_value: clone_accepted_opt(&self.record.accepted),
            };
            (response, Some(bytes))
        } else {
            let response = PrepareResponse {
                proposal_id: self.record.promised_id,
                proposal_value: clone_accepted_opt(&self.record.accepted),
            };
            (response, None)
        }
    }

    /// Handles an accept. The second component, when present, must reach
    /// stable storage before the response is released.
    pub fn on_accept(&mut self, message: AcceptRequest) -> (r: (AcceptResponse, Option<Vec<u8>>))
        requires
            old(self).wf(),
        ensures
            final(self).wf(),
            final(self).record@ == accept_step(
                old(self).record@,
                message.proposal_id,
                message.proposal_value@,
            ),
            r.0@ == accept_reply(
                old(self).record@,
                message.proposal_id,
                message.proposal_value@,
            ),
            final(self).record@.promised_id >= old(self).record@.promised_id,
            message.proposal_id >= old(self).record@.promised_id ==> (r.1 matches Some(b)
                && b@ == spec_encode(final(self).record@)),
            message.proposal_id < old(self).record@.promised_id ==> r.1 is None
                && final(self).record@ == old(self).record@,
    {
        if message.proposal_id < self.record.promised_id {
            let response = AcceptResponse {
                proposal_id: self.record.promised_id,
                proposal_value: clone_accepted_opt(&self.record.accepted),
            };
            (response, None)
        } else {
            let value_len: usize = message.proposal_value.len();
            proof {
                // a vector's length fits in usize, so it fits the
                // encoding's 64-bit length field
                assert(message.proposal_value@.len() == value_len);
                assert(message.proposal_value@.len() <= u64::MAX);
            }
            self.record.promised_id = message.proposal_id;
            self.record.accepted = Some(
                Accepted { id: message.proposal_id, value: message.proposal_value },
            );
            let bytes = store_record(&self.record);
            let response = AcceptResponse {
                proposal_id: self.record.promised_id,
                proposal_value: None,
            };
            (response, Some(bytes))
        }
    }
}

/// Law: a prepare at or below the current promise is a no-op, and
/// repeating it yields an identical reply each time.
pub proof fn lemma_prepare_idempotent(r: RecordModel, pid: u64)
    requires
        pid <= r.promised_id,
    ensures
        prepare_step(r, pid) == r,
        prepare_reply(prepare_step(r, pid), pid) == prepare_reply(r, pid),
{
}

/// Law: the promise never decreases, under either operation.
pub proof fn lemma_promise_monotonic(r: RecordModel, pid: u64, value: Seq<u8>)
    ensures
        prepare_step(r, pid).promised_id >= r.promised_id,
        accept_step(r, pid, value).promised_id >= r.promised_id,
{
}

/// Law: both steps keep the record well-formed, so a vote's identifier
/// never exceeds the promise in any reachable state.
pub proof fn lemma_steps_preserve_wf(r: RecordModel, pid: u64, value: Seq<u8>)
    requires
        r.wf(),
        value.len() <= u64::MAX,
    ensures
        prepare_step(r, pid).wf(),
        accept_step(r, pid, value).wf(),
{
}

} // verus!
