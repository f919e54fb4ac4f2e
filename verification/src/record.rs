//! The acceptor's durable vote: the highest promised proposal identifier
//! together with the accepted value, if any.

use vstd::prelude::*;

verus! {

/// A value an acceptor has voted for, tagged with the proposal identifier
/// under which the vote was cast.
#[derive(Debug)]
pub struct Accepted {
    pub id: u64,
    pub value: Vec<u8>,
}

/// Mathematical model of an [`Accepted`] entry.
#[verifier::ext_equal]
pub ghost struct AcceptedModel {
    pub id: u64,
    pub value: Seq<u8>,
}

impl View for Accepted {
    type V = AcceptedModel;

    open spec fn view(&self) -> AcceptedModel {
        AcceptedModel { id: self.id, value: self.value@ }
    }
}

/// Model of an optional accepted entry; absence means the acceptor has
/// never voted, which is distinct from a vote for an empty value.
pub open spec fn opt_accepted_view(o: Option<Accepted>) -> Option<AcceptedModel> {
    match o {
        Some(a) => Some(a@),
        None => None,
    }
}

/// The durable record of one acceptor: its promise and its vote.
#[derive(Debug)]
pub struct Record {
    pub promised_id: u64,
    pub accepted: Option<Accepted>,
}

/// Mathematical model of a [`Record`].
#[verifier::ext_equal]
pub ghost struct RecordModel {
    pub promised_id: u64,
    pub accepted: Option<AcceptedModel>,
}

impl View for Record {
    type V = RecordModel;

    open spec fn view(&self) -> RecordModel {
        RecordModel { promised_id: self.promised_id, accepted: opt_accepted_view(self.accepted) }
    }
}

impl RecordModel {
    /// A vote is never cast above the promise, and the value is small
    /// enough that its length fits the encoding's length field.
    pub open spec fn wf(self) -> bool {
        self.accepted matches Some(a) ==> a.id <= self.promised_id && a.value.len() <= u64::MAX
    }

    /// The state of an acceptor that has never promised nor voted.
    pub open spec fn fresh() -> RecordModel {
        RecordModel { promised_id: 0, accepted: None }
    }
}

impl Record {
    /// The starting record of a fresh acceptor.
    pub fn fresh() -> (r: Record)
        ensures
            r@ == RecordModel::fresh(),
            r@.wf(),
    {
        Record { promised_id: 0, accepted: None }
    }
}

/// Copies a byte vector. Written out so that verified callers know the
/// copy carries exactly the same bytes.
pub fn clone_bytes(v: &Vec<u8>) -> (r: Vec<u8>)
    ensures
        r@ == v@,
{
    let mut out: Vec<u8> = Vec::new();
    let mut i: usize = 0;
    while i < v.len()
        invariant
            i <= v.len(),
            out@ == v@.subrange(0, i as int),
        decreases v.len() - i,
    {
        out.push(v[i]);
        i = i + 1;
        proof {
            assert(out@ =~= v@.subrange(0, i as int));
        }
    }
    proof {
        assert(out@ =~= v@);
    }
    out
}

/// Copies an optional accepted entry, preserving its model.
pub fn clone_accepted_opt(o: &Option<Accepted>) -> (r: Option<Accepted>)
    ensures
        opt_accepted_view(r) == opt_accepted_view(*o),
{
    match o {
        Some(a) => Some(Accepted { id: a.id, value: clone_bytes(&a.value) }),
        None => None,
    }
}

} // verus!
