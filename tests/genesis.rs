use sn_node::genesis::GenesisRound;
use sn_node::node_duties::{NodeDuties, NodeInfo, Stage};
use sn_node::types::{
    Credit, CreditProof, ElderIdentity, ElderKnowledge, Error, NetworkDuty, NodeDuty, Operation,
    Payload, SignatureShare, SignedTarget, SigningResults, GENESIS_AMOUNT, GENESIS_CREDIT_ID, GENESIS_MEMO,
};

const SECTION_KEY: [u8; 48] = [9; 48];
const ROUND_ONE_SIG: [u8; 96] = [101; 96];
const ROUND_TWO_SIG: [u8; 96] = [202; 96];

fn identity(index: u64) -> ElderIdentity {
    ElderIdentity {
        node_name: [index as u8; 32],
        share_index: index,
        threshold: 2,
        group_size: 5,
        section_key: SECTION_KEY,
    }
}

fn share(index: u64) -> SignatureShare {
    SignatureShare { index, share: [index as u8; 96] }
}

fn credit() -> Credit {
    Credit { id: GENESIS_CREDIT_ID, amount: GENESIS_AMOUNT, recipient: SECTION_KEY, memo: GENESIS_MEMO }
}

#[test]
fn aggregate_appears_with_threshold_plus_one_distinct_shares() {
    let mut round = GenesisRound::new(identity(0), credit(), Vec::new());
    round.add(share(0), None).unwrap();
    round.add(share(1), None).unwrap();
    assert_eq!(round.signature_count(), 2);
    assert!(round.aggregate_signature().is_none());
    // a repeated signer does not count twice, and needs no combination
    round.add(SignatureShare { index: 1, share: [50; 96] }, None).unwrap();
    assert_eq!(round.signature_count(), 2);
    assert!(round.shares().iter().any(|s| s.index == 1 && s.share == [50; 96]));
    assert!(round.aggregate_signature().is_none());
    // the third distinct signer needs the combination
    assert!(matches!(round.add(share(3), None), Err(Error::Collaborator)));
    assert_eq!(round.signature_count(), 2);
    round.add(share(3), Some(ROUND_ONE_SIG)).unwrap();
    assert_eq!(round.signature_count(), 3);
    assert_eq!(round.aggregate_signature(), Some(ROUND_ONE_SIG));
    // further shares leave the aggregate as it is
    round.add(share(4), Some([1; 96])).unwrap();
    assert_eq!(round.signature_count(), 4);
    assert_eq!(round.aggregate_signature(), Some(ROUND_ONE_SIG));
    // a signer outside the group is refused
    assert!(matches!(round.add(share(5), None), Err(Error::InvalidShare)));
    assert_eq!(round.signature_count(), 4);
}

fn collaborator(own: u64) -> SigningResults {
    SigningResults {
        share_valid: true,
        own_share: Some([own as u8; 96]),
        aggregate: None,
        own_signed_share: None,
        aggregate_signed: None,
    }
}

/// Answers a node's signing request: every share verifies, a node's share
/// is made from its index, and the group signature over the credit, and
/// over the signed credit, is one value each.
fn collaborator_for(node: &NodeDuties, own: u64, duty: &NodeDuty) -> SigningResults {
    let request = node.signing_request(duty);
    SigningResults {
        share_valid: request.check.is_some(),
        own_share: if request.sign_credit { Some([own as u8; 96]) } else { None },
        aggregate: request.combine_credit.as_ref().map(|_| ROUND_ONE_SIG),
        own_signed_share: if request.sign_signed { Some([own as u8 + 10; 96]) } else { None },
        aggregate_signed: request.combine_signed.as_ref().map(|_| ROUND_TWO_SIG),
    }
}

#[derive(Clone, Copy)]
enum Msg {
    Proposal(Credit, SignatureShare),
    Accumulation(sn_node::types::SignedCredit, SignatureShare),
}

fn duty_of(m: Msg) -> NodeDuty {
    match m {
        Msg::Proposal(credit, sig) => NodeDuty::ReceiveGenesisProposal { credit, sig },
        Msg::Accumulation(signed_credit, sig) => NodeDuty::ReceiveGenesisAccumulation { signed_credit, sig },
    }
}

struct Outcome {
    proofs: Vec<Option<CreditProof>>,
    proposed_ids: Vec<u64>,
    signed_ids: Vec<u64>,
    finalizations: usize,
}

/// Runs the genesis of five elders; `lifo` delivers the latest message first.
fn run_genesis(lifo: bool) -> Outcome {
    let mut nodes: Vec<NodeDuties> = (0..5u64)
        .map(|i| NodeDuties::new(NodeInfo { genesis: false, reward_key: [i as u8; 48] }, [i as u8; 32]))
        .collect();
    let mut out = Outcome { proofs: vec![None; 5], proposed_ids: vec![], signed_ids: vec![], finalizations: 0 };
    let mut inbox: Vec<(usize, Msg)> = Vec::new();
    for i in 0..5usize {
        nodes[i].process(NetworkDuty::RunAsNode(NodeDuty::AssumeAdultDuties), collaborator(i as u64)).unwrap();
    }
    // the first four elders find fewer than five elders and wait
    for i in 0..4usize {
        let k = ElderKnowledge { identity: identity(i as u64), first_section: true, elder_count: i as u64 + 1, chain_len: 1 };
        let ops = nodes[i].process(NetworkDuty::RunAsNode(NodeDuty::AssumeElderDuties(k)), collaborator(i as u64)).unwrap();
        assert!(ops.is_empty());
    }
    // the fifth proposes
    let k = ElderKnowledge { identity: identity(4), first_section: true, elder_count: 5, chain_len: 1 };
    let mut pending: Vec<(usize, Operation)> = nodes[4]
        .process(NetworkDuty::RunAsNode(NodeDuty::AssumeElderDuties(k)), collaborator(4))
        .unwrap()
        .into_iter()
        .map(|o| (4usize, o))
        .collect();
    let mut redeliveries = 0usize;
    loop {
        for (from, op) in pending.drain(..) {
            match op {
                Operation::ProposeGenesis { credit, sig, .. } => {
                    out.proposed_ids.push(credit.id);
                    for to in 0..5usize {
                        if to != from {
                            inbox.push((to, Msg::Proposal(credit, sig)));
                        }
                    }
                }
                Operation::AccumulateGenesis { signed_credit, sig, .. } => {
                    out.signed_ids.push(signed_credit.credit.id);
                    for to in 0..5usize {
                        if to != from {
                            inbox.push((to, Msg::Accumulation(signed_credit, sig)));
                        }
                    }
                }
                Operation::InitLedger { genesis, .. } => {
                    out.finalizations += 1;
                    assert!(out.proofs[from].is_none());
                    out.proofs[from] = genesis;
                }
                _ => {}
            }
        }
        if inbox.is_empty() {
            break;
        }
        let (to, msg) = if lifo { inbox.pop().unwrap() } else { inbox.remove(0) };
        let duty = duty_of(msg);
        let s = collaborator_for(&nodes[to], to as u64, &duty);
        match nodes[to].process(NetworkDuty::RunAsNode(duty), s) {
            Ok(ops) => pending = ops.into_iter().map(|o| (to, o)).collect(),
            Err(Error::InvalidOperation) => {
                // arrived before the node could take it: the messaging layer redelivers it later
                if lifo {
                    inbox.insert(0, (to, msg));
                } else {
                    inbox.push((to, msg));
                }
                redeliveries += 1;
                assert!(redeliveries < 1000);
            }
            Err(e) => panic!("unexpected {:?}", e),
        }
    }
    for n in &nodes {
        assert!(matches!(n.stage, Stage::Elder(_)));
    }
    out
}

#[test]
fn five_elders_agree_on_one_genesis_proof_in_any_order() {
    let fifo = run_genesis(false);
    let lifo = run_genesis(true);
    for outcome in [&fifo, &lifo] {
        assert_eq!(outcome.finalizations, 5);
        let first = outcome.proofs[0].unwrap();
        assert_eq!(first.signed_credit.credit.id, GENESIS_CREDIT_ID);
        assert_eq!(first.signed_credit.credit.amount, GENESIS_AMOUNT);
        assert_eq!(first.signed_credit.credit.recipient, SECTION_KEY);
        assert_eq!(first.signed_credit.signature, ROUND_ONE_SIG);
        assert_eq!(first.signature, ROUND_TWO_SIG);
        assert_eq!(first.replicas, SECTION_KEY);
        for p in &outcome.proofs {
            let p = p.unwrap();
            assert_eq!(p.signed_credit.credit.id, first.signed_credit.credit.id);
            assert_eq!(p.signed_credit.signature, first.signed_credit.signature);
            assert_eq!(p.signature, first.signature);
        }
    }
    let a = fifo.proofs[0].unwrap();
    let b = lifo.proofs[0].unwrap();
    assert_eq!(a.signed_credit.credit.id, b.signed_credit.credit.id);
    assert_eq!(a.signature, b.signature);
}

#[test]
fn one_credit_id_across_both_rounds() {
    let outcome = run_genesis(false);
    // the originator and each of the four others propose once
    assert_eq!(outcome.proposed_ids.len(), 5);
    assert!(outcome.proposed_ids.iter().all(|id| *id == GENESIS_CREDIT_ID));
    // each elder broadcasts one share over the signed credit
    assert_eq!(outcome.signed_ids.len(), 5);
    assert!(outcome.signed_ids.iter().all(|id| *id == GENESIS_CREDIT_ID));
}

#[test]
fn third_distinct_share_completes_round_one() {
    // elder 0 waits, then sees the proposal of elder 4 and shares from 1
    let mut n = NodeDuties::new(NodeInfo { genesis: false, reward_key: [0; 48] }, [0; 32]);
    n.process(NetworkDuty::RunAsNode(NodeDuty::AssumeAdultDuties), collaborator(0)).unwrap();
    let k = ElderKnowledge { identity: identity(0), first_section: true, elder_count: 1, chain_len: 1 };
    n.process(NetworkDuty::RunAsNode(NodeDuty::AssumeElderDuties(k)), collaborator(0)).unwrap();
    let ops = n
        .process(NetworkDuty::RunAsNode(NodeDuty::ReceiveGenesisProposal { credit: credit(), sig: share(4) }), collaborator(0))
        .unwrap();
    assert!(matches!(ops[0], Operation::ProposeGenesis { sig, .. } if sig.index == 0));
    // the same share again changes nothing
    let ops = n
        .process(NetworkDuty::RunAsNode(NodeDuty::ReceiveGenesisProposal { credit: credit(), sig: share(4) }), collaborator(0))
        .unwrap();
    assert!(ops.is_empty());
    // a share over another credit is refused
    let other = Credit { id: 7, amount: GENESIS_AMOUNT, recipient: SECTION_KEY, memo: GENESIS_MEMO };
    let r = n.process(NetworkDuty::RunAsNode(NodeDuty::ReceiveGenesisProposal { credit: other, sig: share(1) }), collaborator(0));
    assert!(matches!(r, Err(Error::InvalidShare)));
    // the third distinct signer completes round one
    let mut s = collaborator(0);
    s.aggregate = Some(ROUND_ONE_SIG);
    s.own_signed_share = Some([10; 96]);
    let ops = n
        .process(NetworkDuty::RunAsNode(NodeDuty::ReceiveGenesisProposal { credit: credit(), sig: share(1) }), s)
        .unwrap();
    match &ops[0] {
        Operation::AccumulateGenesis { signed_credit, sig, .. } => {
            assert_eq!(signed_credit.signature, ROUND_ONE_SIG);
            assert_eq!(signed_credit.credit.id, GENESIS_CREDIT_ID);
            assert_eq!(sig.index, 0);
            assert_eq!(sig.share, [10; 96]);
        }
        other => panic!("unexpected {:?}", other),
    }
    assert!(matches!(n.stage, Stage::Genesis(sn_node::node_duties::GenesisStage::AccumulatingGenesis(_))));
}

#[test]
fn signing_request_names_what_each_step_reads() {
    let mut n = NodeDuties::new(NodeInfo { genesis: false, reward_key: [0; 48] }, [0; 32]);
    n.process(NetworkDuty::RunAsNode(NodeDuty::AssumeAdultDuties), collaborator(0)).unwrap();
    let originator = NodeDuty::AssumeElderDuties(ElderKnowledge { identity: identity(0), first_section: true, elder_count: 5, chain_len: 1 });
    let request = n.signing_request(&originator);
    assert!(matches!(request.credit, Some(c) if c.id == GENESIS_CREDIT_ID && c.recipient == SECTION_KEY));
    assert!(request.sign_credit);
    assert!(request.check.is_none() && request.combine_credit.is_none() && request.signed.is_none());
    n.process(NetworkDuty::RunAsNode(originator), collaborator(0)).unwrap();
    // a second signer: below the threshold, only the share is checked
    let d = NodeDuty::ReceiveGenesisProposal { credit: credit(), sig: share(1) };
    let request = n.signing_request(&d);
    assert!(matches!(request.check, Some((s, Payload::Credit(_))) if s.index == 1));
    assert!(request.combine_credit.is_none() && !request.sign_credit && !request.sign_signed);
    n.process(NetworkDuty::RunAsNode(d), collaborator(0)).unwrap();
    // a third signer completes round one: combine all three, then sign the signed credit
    let d = NodeDuty::ReceiveGenesisProposal { credit: credit(), sig: share(2) };
    let request = n.signing_request(&d);
    let combination = request.combine_credit.unwrap();
    let indices: Vec<u64> = combination.shares.iter().map(|s| s.index).collect();
    assert_eq!(indices, vec![0, 1, 2]);
    assert!(combination.own_index.is_none());
    assert!(matches!(request.signed, Some(SignedTarget::FromRoundOne(c)) if c.id == GENESIS_CREDIT_ID));
    assert!(request.sign_signed && request.combine_signed.is_none());
    // an event with no signing work asks for nothing
    let request = n.signing_request(&NodeDuty::StorageFull);
    assert!(request.check.is_none() && request.combine_credit.is_none() && request.signed.is_none());
}

fn identity_with(index: u64, threshold: u64) -> ElderIdentity {
    let mut id = identity(index);
    id.threshold = threshold;
    id
}

fn full_results(own: u8) -> SigningResults {
    SigningResults {
        share_valid: true,
        own_share: Some([own; 96]),
        aggregate: Some(ROUND_ONE_SIG),
        own_signed_share: Some([own + 10; 96]),
        aggregate_signed: Some(ROUND_TWO_SIG),
    }
}

#[test]
fn threshold_one_round_one_completes_when_it_opens() {
    let mut n = NodeDuties::new(NodeInfo { genesis: false, reward_key: [0; 48] }, [0; 32]);
    n.process(NetworkDuty::RunAsNode(NodeDuty::AssumeAdultDuties), collaborator(0)).unwrap();
    let k = ElderKnowledge { identity: identity_with(0, 1), first_section: true, elder_count: 2, chain_len: 1 };
    n.process(NetworkDuty::RunAsNode(NodeDuty::AssumeElderDuties(k)), collaborator(0)).unwrap();
    let d = NodeDuty::ReceiveGenesisProposal { credit: credit(), sig: share(3) };
    let request = n.signing_request(&d);
    let combination = request.combine_credit.as_ref().unwrap();
    assert_eq!(combination.shares.len(), 1);
    assert_eq!(combination.own_index, Some(0));
    assert!(request.sign_signed);
    // without the group signature the step fails and the node still waits
    let mut partial = full_results(0);
    partial.aggregate = None;
    let r = n.process(NetworkDuty::RunAsNode(NodeDuty::ReceiveGenesisProposal { credit: credit(), sig: share(3) }), partial);
    assert!(matches!(r, Err(Error::Collaborator)));
    assert!(matches!(n.stage, Stage::Genesis(sn_node::node_duties::GenesisStage::AwaitingGenesisThreshold(..))));
    let ops = n.process(NetworkDuty::RunAsNode(d), full_results(0)).unwrap();
    assert_eq!(ops.len(), 2);
    assert!(matches!(ops[0], Operation::ProposeGenesis { sig, .. } if sig.index == 0));
    match &ops[1] {
        Operation::AccumulateGenesis { signed_credit, sig, .. } => {
            assert_eq!(signed_credit.signature, ROUND_ONE_SIG);
            assert_eq!(sig.share, [10; 96]);
        }
        other => panic!("unexpected {:?}", other),
    }
    match &n.stage {
        Stage::Genesis(sn_node::node_duties::GenesisStage::AccumulatingGenesis(round)) => {
            assert_eq!(round.signature_count(), 1);
            assert!(round.aggregate_signature().is_none());
        }
        _ => panic!("not accumulating"),
    }
}

#[test]
fn threshold_one_round_two_completes_when_it_opens() {
    let mut n = NodeDuties::new(NodeInfo { genesis: false, reward_key: [7; 48] }, [0; 32]);
    n.process(NetworkDuty::RunAsNode(NodeDuty::AssumeAdultDuties), collaborator(0)).unwrap();
    let k = ElderKnowledge { identity: identity_with(0, 1), first_section: true, elder_count: 5, chain_len: 1 };
    n.process(NetworkDuty::RunAsNode(NodeDuty::AssumeElderDuties(k)), collaborator(0)).unwrap();
    let signed = sn_node::types::SignedCredit { credit: credit(), signature: ROUND_ONE_SIG };
    let ops = n
        .process(NetworkDuty::RunAsNode(NodeDuty::ReceiveGenesisAccumulation { signed_credit: signed, sig: share(2) }), full_results(0))
        .unwrap();
    assert!(matches!(n.stage, Stage::Elder(_)));
    assert_eq!(ops.len(), 4);
    assert!(matches!(ops[0], Operation::AccumulateGenesis { .. }));
    match &ops[1] {
        Operation::InitLedger { genesis: Some(p), wallet } => {
            assert_eq!(p.signature, ROUND_TWO_SIG);
            assert_eq!(p.signed_credit.signature, ROUND_ONE_SIG);
            assert_eq!(wallet.credits.len(), 1);
        }
        other => panic!("unexpected {:?}", other),
    }
    assert!(matches!(ops[2], Operation::AddNewNode { .. }));
    assert!(matches!(ops[3], Operation::SetNodeWallet { wallet, .. } if wallet == [7; 48]));
}

#[test]
fn threshold_zero_originator_finalizes_at_once() {
    let mut n = NodeDuties::new(NodeInfo { genesis: false, reward_key: [7; 48] }, [0; 32]);
    n.process(NetworkDuty::RunAsNode(NodeDuty::AssumeAdultDuties), collaborator(0)).unwrap();
    let d = NodeDuty::AssumeElderDuties(ElderKnowledge { identity: identity_with(4, 0), first_section: true, elder_count: 5, chain_len: 1 });
    let request = n.signing_request(&d);
    assert!(request.combine_credit.is_some() && request.sign_signed && request.combine_signed.is_some());
    let ops = n.process(NetworkDuty::RunAsNode(d), full_results(4)).unwrap();
    assert!(matches!(n.stage, Stage::Elder(_)));
    assert_eq!(ops.len(), 5);
    assert!(matches!(ops[0], Operation::ProposeGenesis { .. }));
    assert!(matches!(ops[1], Operation::AccumulateGenesis { .. }));
    assert!(matches!(ops[2], Operation::InitLedger { genesis: Some(_), .. }));
}
