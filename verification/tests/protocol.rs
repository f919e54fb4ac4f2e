use paxos_replica::acceptor::{AcceptRequest, AcceptResponse, PrepareRequest, PrepareResponse};
use paxos_replica::codec::load_record;
use paxos_replica::paxos::{Paxos, ProposeError};
use paxos_replica::record::Record;

fn fresh(n: usize) -> Paxos {
    Paxos::new(n, None)
}

/// Drives one full proposal on `node`, with `peers` standing in for the
/// remote acceptors that are reachable; unreachable peers simply contribute
/// no reply, exactly as a transport error would.
fn propose(node: &mut Paxos, peers: &mut [&mut Paxos], value: &[u8]) -> Result<(), ProposeError> {
    let pid = node.begin_propose();

    let mut prepare_replies: Vec<PrepareResponse> = Vec::new();
    for peer in peers.iter_mut() {
        let (reply, persist) = peer.on_prepare(PrepareRequest { proposal_id: pid });
        let _ = persist;
        prepare_replies.push(reply);
    }
    let (local_prepare, _) = node.on_prepare(PrepareRequest { proposal_id: pid });
    let chosen = node.finish_prepare(prepare_replies, local_prepare, value.to_vec())?;

    let mut accept_replies: Vec<AcceptResponse> = Vec::new();
    for peer in peers.iter_mut() {
        let (reply, persist) = peer.on_accept(AcceptRequest {
            proposal_id: pid,
            proposal_value: chosen.clone(),
        });
        let _ = persist;
        accept_replies.push(reply);
    }
    let (local_accept, _) = node.on_accept(AcceptRequest {
        proposal_id: pid,
        proposal_value: chosen.clone(),
    });
    node.finish_accept(pid, accept_replies, local_accept, &chosen, &value.to_vec())
}

fn accepted_value(node: &Paxos) -> Option<Vec<u8>> {
    node.acceptor.record.accepted.as_ref().map(|a| a.value.clone())
}

#[test]
fn majority_sizes() {
    assert_eq!(fresh(1).majority(), 1);
    assert_eq!(fresh(2).majority(), 2);
    assert_eq!(fresh(3).majority(), 2);
    assert_eq!(fresh(4).majority(), 3);
    assert_eq!(fresh(5).majority(), 3);
}

#[test]
fn single_replica_succeeds_without_rpc() {
    let mut a = fresh(1);
    assert!(propose(&mut a, &mut [], b"solo").is_ok());
    assert_eq!(accepted_value(&a).unwrap(), b"solo");
    assert_eq!(a.acceptor.record.promised_id, 1);
}

#[test]
fn two_replicas_need_both() {
    let mut a = fresh(2);
    // the only peer is down: one reply short of majority 2
    let r = propose(&mut a, &mut [], b"x");
    assert!(matches!(r, Err(ProposeError::QuorumUnavailable)));
    assert!(accepted_value(&a).is_none());

    // with the peer up, the same proposal goes through
    let mut b = fresh(2);
    assert!(propose(&mut a, &mut [&mut b], b"x").is_ok());
    assert_eq!(accepted_value(&b).unwrap(), b"x");
}

#[test]
fn three_replicas_tolerate_one_partitioned() {
    let mut a = fresh(3);
    let mut b = fresh(3);
    // c is partitioned away and contributes nothing
    assert!(propose(&mut a, &mut [&mut b], b"x").is_ok());
    assert_eq!(accepted_value(&a).unwrap(), b"x");
    assert_eq!(accepted_value(&b).unwrap(), b"x");
}

#[test]
fn fresh_agreement_three_replicas() {
    let mut a = fresh(3);
    let mut b = fresh(3);
    let mut c = fresh(3);
    assert!(propose(&mut a, &mut [&mut b, &mut c], b"x").is_ok());
    let pid = a.acceptor.record.accepted.as_ref().unwrap().id;
    for node in [&a, &b, &c] {
        let vote = node.acceptor.record.accepted.as_ref().unwrap();
        assert_eq!(vote.id, pid);
        assert_eq!(vote.value, b"x");
    }
}

#[test]
fn second_proposer_adopts_chosen_value() {
    let mut a = fresh(3);
    let mut b = fresh(3);
    let mut c = fresh(3);
    assert!(propose(&mut a, &mut [&mut b, &mut c], b"x").is_ok());

    // b proposes its own value; Phase 1 surfaces "x" and binds b to it
    let r = propose(&mut b, &mut [&mut a, &mut c], b"y");
    match r {
        Err(ProposeError::ValueAlreadyChosen(v)) => assert_eq!(v, b"x"),
        other => panic!("expected the chosen value to be reported, got {other:?}"),
    }
    for node in [&a, &b, &c] {
        assert_eq!(accepted_value(node).unwrap(), b"x");
    }
}

#[test]
fn higher_promise_preempts_phase_two() {
    // A prepares pid 5 against a quorum, but before A's accepts land, a
    // rival prepares pid 7 at C; C's reply then preempts A.
    let mut a = fresh(3);
    a.proposer.observe(4);
    let mut c = fresh(3);

    let pid = a.begin_propose();
    assert_eq!(pid, 5);
    let (c_prepare, _) = c.on_prepare(PrepareRequest { proposal_id: pid });
    let (local_prepare, _) = a.on_prepare(PrepareRequest { proposal_id: pid });
    let chosen = a
        .finish_prepare(vec![c_prepare], local_prepare, b"a-value".to_vec())
        .expect("phase 1 had a quorum");

    // the rival's higher prepare reaches C first
    let (_, _) = c.on_prepare(PrepareRequest { proposal_id: 7 });

    let (c_accept, _) = c.on_accept(AcceptRequest { proposal_id: pid, proposal_value: chosen.clone() });
    assert_eq!(c_accept.proposal_id, 7);
    let (local_accept, _) = a.on_accept(AcceptRequest { proposal_id: pid, proposal_value: chosen.clone() });
    let r = a.finish_accept(pid, vec![c_accept], local_accept, &chosen, &b"a-value".to_vec());
    assert!(matches!(r, Err(ProposeError::Preempted)));
    assert!(accepted_value(&c).is_none());
}

#[test]
fn minority_partition_fails_majority_side_succeeds() {
    // N = 5, {a, b} cut off from {c, d, e}
    let mut a = fresh(5);
    let mut b = fresh(5);
    let mut c = fresh(5);
    let mut d = fresh(5);
    let mut e = fresh(5);

    let r = propose(&mut a, &mut [&mut b], b"minority");
    assert!(matches!(r, Err(ProposeError::QuorumUnavailable)));

    assert!(propose(&mut c, &mut [&mut d, &mut e], b"majority").is_ok());
    assert_eq!(accepted_value(&c).unwrap(), b"majority");
    assert!(accepted_value(&a).is_none());
}

#[test]
fn repeated_low_prepare_is_noop_with_identical_replies() {
    let mut a = fresh(3);
    let (_, persist) = a.on_prepare(PrepareRequest { proposal_id: 9 });
    assert!(persist.is_some());

    let (first, p1) = a.on_prepare(PrepareRequest { proposal_id: 8 });
    let (second, p2) = a.on_prepare(PrepareRequest { proposal_id: 8 });
    assert!(p1.is_none() && p2.is_none());
    assert_eq!(first.proposal_id, 9);
    assert_eq!(second.proposal_id, 9);
    assert!(first.proposal_value.is_none() && second.proposal_value.is_none());
    assert_eq!(a.acceptor.record.promised_id, 9);
}

#[test]
fn promise_survives_crash_and_outbids_lower_prepare() {
    // C promises pid 9 and the bytes reach disk, then C crashes before
    // replying; after recovery a prepare at pid 8 is rejected.
    let mut c = fresh(3);
    let (_, persist) = c.on_prepare(PrepareRequest { proposal_id: 9 });
    let disk = persist.expect("a raised promise must be persisted");

    let recovered = load_record(&disk).unwrap();
    let mut c2 = Paxos::new(3, recovered);
    assert_eq!(c2.acceptor.record.promised_id, 9);

    let (reply, persist) = c2.on_prepare(PrepareRequest { proposal_id: 8 });
    assert_eq!(reply.proposal_id, 9);
    assert!(persist.is_none());
}

#[test]
fn accepted_vote_survives_crash() {
    let mut a = fresh(3);
    let (_, _) = a.on_prepare(PrepareRequest { proposal_id: 3 });
    let (reply, persist) = a.on_accept(AcceptRequest { proposal_id: 3, proposal_value: b"kept".to_vec() });
    assert_eq!(reply.proposal_id, 3);
    assert!(reply.proposal_value.is_none());

    let recovered: Option<Record> = load_record(&persist.unwrap()).unwrap();
    let a2 = Paxos::new(3, recovered);
    let vote = a2.acceptor.record.accepted.as_ref().unwrap();
    assert_eq!(vote.id, 3);
    assert_eq!(vote.value, b"kept");
    assert_eq!(a2.acceptor.record.promised_id, 3);
}

#[test]
fn empty_value_can_be_accepted() {
    let mut a = fresh(1);
    assert!(propose(&mut a, &mut [], b"").is_ok());
    let vote = a.acceptor.record.accepted.as_ref().unwrap();
    assert!(vote.value.is_empty());
}

#[test]
fn accept_below_promise_is_rejected_without_change() {
    let mut a = fresh(3);
    let (_, _) = a.on_prepare(PrepareRequest { proposal_id: 9 });
    let (reply, persist) = a.on_accept(AcceptRequest { proposal_id: 5, proposal_value: b"late".to_vec() });
    assert_eq!(reply.proposal_id, 9);
    assert!(persist.is_none());
    assert!(a.acceptor.record.accepted.is_none());
}

#[test]
fn vote_id_never_exceeds_promise() {
    let mut a = fresh(3);
    let (_, _) = a.on_prepare(PrepareRequest { proposal_id: 2 });
    let (_, _) = a.on_accept(AcceptRequest { proposal_id: 4, proposal_value: b"v".to_vec() });
    let (_, _) = a.on_prepare(PrepareRequest { proposal_id: 11 });
    let record = &a.acceptor.record;
    assert!(record.accepted.as_ref().unwrap().id <= record.promised_id);
    assert_eq!(record.promised_id, 11);
    assert_eq!(record.accepted.as_ref().unwrap().id, 4);
}

#[test]
fn proposer_counter_outbids_highest_seen_promise() {
    let mut a = fresh(3);
    let mut b = fresh(3);
    // b already promised far ahead
    let (_, _) = b.on_prepare(PrepareRequest { proposal_id: 40 });

    // a's first attempt is preempted in phase 2 by b's high promise
    let r = propose(&mut a, &mut [&mut b], b"x");
    assert!(matches!(r, Err(ProposeError::Preempted)));
    // but the tally raised a's counter, so the retry outbids pid 40
    assert_eq!(a.proposer.proposal_id, 40);
    assert!(propose(&mut a, &mut [&mut b], b"x").is_ok());
    assert_eq!(accepted_value(&b).unwrap(), b"x");
    assert_eq!(b.acceptor.record.accepted.as_ref().unwrap().id, 41);
}
