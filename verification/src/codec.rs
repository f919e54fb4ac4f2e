//! Durable encoding of the acceptor's record.
//!
//! Layout: 8 bytes little-endian promise, one tag byte (0: no vote,
//! 1: a vote follows), and for a vote 8 bytes little-endian proposal
//! identifier, 8 bytes little-endian value length, then the value bytes.
//! The explicit tag and length make an empty accepted value distinct from
//! "no vote", and let recovery detect a torn write instead of misreading it.

use vstd::bytes::{
    lemma_auto_spec_u64_to_from_le_bytes, spec_u64_from_le_bytes, spec_u64_to_le_bytes,
    u64_from_le_bytes, u64_to_le_bytes,
};
use vstd::prelude::*;
use vstd::slice::slice_subrange;

use crate::record::{Accepted, AcceptedModel, Record, RecordModel};

verus! {

/// Why a state file's contents could not be read back.
#[derive(Debug, Clone, Copy, PartialEq, Eq, Structural)]
pub enum DecodeError {
    /// Fewer bytes than the record they announce: a torn or cut-off write.
    Truncated,
    /// A tag or field that no write of this library produces.
    Corrupt,
}

/// The exact bytes that persisting `r` writes.
pub open spec fn spec_encode(r: RecordModel) -> Seq<u8> {
    match r.accepted {
        None => spec_u64_to_le_bytes(r.promised_id) + seq![0u8],
        Some(a) => spec_u64_to_le_bytes(r.promised_id) + seq![1u8] + spec_u64_to_le_bytes(a.id)
            + spec_u64_to_le_bytes(a.value.len() as u64) + a.value,
    }
}

/// What recovery yields from a state file holding `b`: a fresh acceptor on
/// an empty file, the recorded vote on a well-formed file, and an error on
/// anything else.
pub open spec fn spec_decode(b: Seq<u8>) -> Result<Option<RecordModel>, DecodeError> {
    if b.len() == 0 {
        Ok(None)
    } else if b.len() < 9 {
        Err(DecodeError::Truncated)
    } else {
        let promised_id = spec_u64_from_le_bytes(b.subrange(0, 8));
        if b[8] == 0u8 {
            if b.len() == 9 {
                Ok(Some(RecordModel { promised_id, accepted: None }))
            } else {
                Err(DecodeError::Corrupt)
            }
        } else if b[8] == 1u8 {
            if b.len() < 25 {
                Err(DecodeError::Truncated)
            } else {
                let id = spec_u64_from_le_bytes(b.subrange(9, 17));
                let len = spec_u64_from_le_bytes(b.subrange(17, 25));
                if id > promised_id {
                    Err(DecodeError::Corrupt)
                } else if b.len() - 25 < len {
                    Err(DecodeError::Truncated)
                } else if b.len() - 25 > len {
                    Err(DecodeError::Corrupt)
                } else {
                    Ok(
                        Some(
                            RecordModel {
                                promised_id,
                                accepted: Some(
                                    AcceptedModel { id, value: b.subrange(25, b.len() as int) },
                                ),
                            },
                        ),
                    )
                }
            }
        } else {
            Err(DecodeError::Corrupt)
        }
    }
}

/// Serializes a record for the durability barrier.
pub fn store_record(r: &Record) -> (b: Vec<u8>)
    requires
        r@.wf(),
    ensures
        b@ == spec_encode(r@),
{
    let mut b = u64_to_le_bytes(r.promised_id);
    match &r.accepted {
        None => {
            b.push(0u8);
            proof {
                assert(b@ =~= spec_encode(r@));
            }
        },
        Some(a) => {
            b.push(1u8);
            let mut id_bytes = u64_to_le_bytes(a.id);
            b.append(&mut id_bytes);
            let mut len_bytes = u64_to_le_bytes(a.value.len() as u64);
            b.append(&mut len_bytes);
            let mut i: usize = 0;
            let ghost prefix = b@;
            while i < a.value.len()
                invariant
                    i <= a.value.len(),
                    b@ == prefix + a.value@.subrange(0, i as int),
                decreases a.value.len() - i,
            {
                b.push(a.value[i]);
                i = i + 1;
                proof {
                    assert(b@ =~= prefix + a.value@.subrange(0, i as int));
                }
            }
            proof {
                assert(a.value@.subrange(0, a.value@.len() as int) =~= a.value@);
                assert(b@ =~= spec_encode(r@));
            }
        },
    }
    b
}

/// Deserializes a state file's contents, exactly as [`spec_decode`] says.
pub fn load_record(bytes: &Vec<u8>) -> (r: Result<Option<Record>, DecodeError>)
    ensures
        match r {
            Ok(Some(rec)) => spec_decode(bytes@) == Ok::<Option<RecordModel>, DecodeError>(
                Some(rec@),
            ) && rec@.wf(),
            Ok(None) => spec_decode(bytes@) == Ok::<Option<RecordModel>, DecodeError>(None),
            Err(e) => spec_decode(bytes@) == Err::<Option<RecordModel>, DecodeError>(e),
        },
{
    let n = bytes.len();
    if n == 0 {
        return Ok(None);
    }
    if n < 9 {
        return Err(DecodeError::Truncated);
    }
    let promised_id = u64_from_le_bytes(slice_subrange(bytes.as_slice(), 0, 8));
    let tag = bytes[8];
    if tag == 0u8 {
        if n == 9 {
            Ok(Some(Record { promised_id, accepted: None }))
        } else {
            Err(DecodeError::Corrupt)
        }
    } else if tag == 1u8 {
        if n < 25 {
            return Err(DecodeError::Truncated);
        }
        let id = u64_from_le_bytes(slice_subrange(bytes.as_slice(), 9, 17));
        let len = u64_from_le_bytes(slice_subrange(bytes.as_slice(), 17, 25));
        if id > promised_id {
            return Err(DecodeError::Corrupt);
        }
        let rest = (n - 25) as u64;
        if rest < len {
            return Err(DecodeError::Truncated);
        }
        if rest > len {
            return Err(DecodeError::Corrupt);
        }
        let mut value: Vec<u8> = Vec::new();
        let mut i: usize = 25;
        while i < n
            invariant
                25 <= i <= n,
                n == bytes@.len(),
                value@ == bytes@.subrange(25, i as int),
            decreases n - i,
        {
            value.push(bytes[i]);
            i = i + 1;
            proof {
                assert(value@ =~= bytes@.subrange(25, i as int));
            }
        }
        let rec = Record { promised_id, accepted: Some(Accepted { id, value }) };
        proof {
            assert(spec_decode(bytes@) == Ok::<Option<RecordModel>, DecodeError>(Some(rec@)));
        }
        Ok(Some(rec))
    } else {
        Err(DecodeError::Corrupt)
    }
}

/// Law: recovery restores exactly what was persisted. For every
/// well-formed record `r`, decoding `spec_encode(r)` yields `r`.
pub proof fn lemma_store_load_roundtrip(r: RecordModel)
    requires
        r.wf(),
    ensures
        spec_decode(spec_encode(r)) == Ok::<Option<RecordModel>, DecodeError>(Some(r)),
{
    lemma_auto_spec_u64_to_from_le_bytes();
    let b = spec_encode(r);
    match r.accepted {
        None => {
            assert(b.len() == 9);
            assert(b.subrange(0, 8) =~= spec_u64_to_le_bytes(r.promised_id));
            assert(b[8] == 0u8);
            assert(spec_decode(b) == Ok::<Option<RecordModel>, DecodeError>(
                Some(RecordModel { promised_id: r.promised_id, accepted: None }),
            ));
            assert(RecordModel { promised_id: r.promised_id, accepted: None } =~= r);
        },
        Some(a) => {
            assert(b.len() == 25 + a.value.len());
            assert(b.subrange(0, 8) =~= spec_u64_to_le_bytes(r.promised_id));
            assert(b[8] == 1u8);
            assert(b.subrange(9, 17) =~= spec_u64_to_le_bytes(a.id));
            assert(b.subrange(17, 25) =~= spec_u64_to_le_bytes(a.value.len() as u64));
            assert(b.subrange(25, b.len() as int) =~= a.value);
            let decoded = RecordModel {
                promised_id: r.promised_id,
                accepted: Some(AcceptedModel { id: a.id, value: b.subrange(25, b.len() as int) }),
            };
            assert(spec_decode(b) == Ok::<Option<RecordModel>, DecodeError>(Some(decoded)));
            assert(decoded =~= r);
        },
    }
}

} // verus!
