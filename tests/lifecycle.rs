use sn_node::node_duties::{GenesisStage, NodeDuties, NodeInfo, NodeState, Stage};
use sn_node::types::{
    Credit, ElderDuty, ElderIdentity, ElderKnowledge, Error, NetworkDuty, NodeDuty, Operation,
    SignatureShare, SigningResults, WalletInfo, GENESIS_AMOUNT, GENESIS_CREDIT_ID, GENESIS_MEMO,
};
use sn_node::wallet_section::WalletSection;
use sn_node::rate_limit::{Capacity, RateLimit};

const SECTION_KEY: [u8; 48] = [9; 48];
const REWARD_KEY: [u8; 48] = [4; 48];

fn identity(index: u64) -> ElderIdentity {
    ElderIdentity {
        node_name: [index as u8; 32],
        share_index: index,
        threshold: 2,
        group_size: 5,
        section_key: SECTION_KEY,
    }
}

fn knowledge(index: u64, first_section: bool, elder_count: u64) -> ElderKnowledge {
    ElderKnowledge { identity: identity(index), first_section, elder_count, chain_len: 1 }
}

fn node(genesis: bool) -> NodeDuties {
    NodeDuties::new(NodeInfo { genesis, reward_key: REWARD_KEY }, [1; 32])
}

fn no_signing() -> SigningResults {
    SigningResults { share_valid: true, own_share: None, aggregate: None, own_signed_share: None, aggregate_signed: None }
}

fn signing(own: u8) -> SigningResults {
    SigningResults {
        share_valid: true,
        own_share: Some([own; 96]),
        aggregate: Some([77; 96]),
        own_signed_share: Some([own; 96]),
        aggregate_signed: Some([78; 96]),
    }
}

fn run(n: &mut NodeDuties, d: NodeDuty, s: SigningResults) -> Result<Vec<Operation>, Error> {
    n.process(NetworkDuty::RunAsNode(d), s)
}

fn duty(kind: u64) -> ElderDuty {
    ElderDuty { kind, payload: vec![kind as u8] }
}

fn genesis_credit() -> Credit {
    Credit { id: GENESIS_CREDIT_ID, amount: GENESIS_AMOUNT, recipient: SECTION_KEY, memo: GENESIS_MEMO }
}

#[test]
fn assume_adult_twice_is_idempotent() {
    let mut n = node(false);
    let first = run(&mut n, NodeDuty::AssumeAdultDuties, no_signing()).unwrap();
    assert!(matches!(n.stage, Stage::Adult(_)));
    assert_eq!(first.len(), 1);
    assert!(matches!(first[0], Operation::RegisterWallet { wallet } if wallet == REWARD_KEY));
    let second = run(&mut n, NodeDuty::AssumeAdultDuties, no_signing()).unwrap();
    assert!(second.is_empty());
    assert!(matches!(n.stage, Stage::Adult(_)));
}

#[test]
fn assume_adult_leaves_an_elder_alone() {
    let mut n = node(false);
    run(&mut n, NodeDuty::AssumeAdultDuties, no_signing()).unwrap();
    run(&mut n, NodeDuty::AssumeElderDuties(knowledge(1, false, 7)), no_signing()).unwrap();
    let wallet = WalletInfo { replicas: SECTION_KEY, credits: vec![] };
    run(&mut n, NodeDuty::InitSectionWallet { wallet, genesis_knowledge: None }, no_signing()).unwrap();
    assert!(matches!(n.stage, Stage::Elder(_)));
    let ops = run(&mut n, NodeDuty::AssumeAdultDuties, no_signing()).unwrap();
    assert!(ops.is_empty());
    assert!(matches!(n.stage, Stage::Elder(_)));
}

#[test]
fn infant_non_genesis_cannot_become_elder() {
    let mut n = node(false);
    let r = run(&mut n, NodeDuty::AssumeElderDuties(knowledge(1, true, 3)), no_signing());
    assert!(matches!(r, Err(Error::InvalidOperation)));
    assert!(matches!(n.stage, Stage::Infant));
}

#[test]
fn well_formedness_is_checked() {
    let mut n = node(false);
    assert!(n.is_well_formed());
    run(&mut n, NodeDuty::AssumeAdultDuties, no_signing()).unwrap();
    run(&mut n, NodeDuty::AssumeElderDuties(knowledge(4, true, 5)), signing(40)).unwrap();
    assert!(n.is_well_formed());
    if let Stage::Genesis(GenesisStage::ProposingGenesis(round)) = &mut n.stage {
        round.signatures.push(SignatureShare { index: 4, share: [1; 96] });
    }
    assert!(!n.is_well_formed());
}

#[test]
fn participant_refuses_a_credit_other_than_genesis() {
    let mut n = node(false);
    run(&mut n, NodeDuty::AssumeAdultDuties, no_signing()).unwrap();
    run(&mut n, NodeDuty::AssumeElderDuties(knowledge(2, true, 3)), no_signing()).unwrap();
    let sig = SignatureShare { index: 1, share: [1; 96] };
    let mut credit = genesis_credit();
    credit.amount = 5;
    let r = run(&mut n, NodeDuty::ReceiveGenesisProposal { credit, sig }, signing(2));
    assert!(matches!(r, Err(Error::InvalidOperation)));
    let mut credit = genesis_credit();
    credit.memo = [0; 32];
    let r = run(&mut n, NodeDuty::ReceiveGenesisProposal { credit, sig }, signing(2));
    assert!(matches!(r, Err(Error::InvalidOperation)));
    assert!(matches!(n.stage, Stage::Genesis(GenesisStage::AwaitingGenesisThreshold(..))));
}

#[test]
fn invalid_identity_is_refused() {
    let mut n = node(false);
    run(&mut n, NodeDuty::AssumeAdultDuties, no_signing()).unwrap();
    let mut k = knowledge(1, false, 7);
    k.identity.threshold = 5;
    let r = run(&mut n, NodeDuty::AssumeElderDuties(k), no_signing());
    assert!(matches!(r, Err(Error::InvalidOperation)));
    assert!(matches!(n.stage, Stage::Adult(_)));
}

#[test]
fn ordinary_promotion_queries_wallet_history() {
    let mut n = node(false);
    run(&mut n, NodeDuty::AssumeAdultDuties, no_signing()).unwrap();
    let ops = run(&mut n, NodeDuty::AssumeElderDuties(knowledge(2, false, 7)), no_signing()).unwrap();
    assert_eq!(ops.len(), 1);
    assert!(matches!(ops[0], Operation::QueryWalletHistory { section_key } if section_key == SECTION_KEY));
    assert!(matches!(n.stage, Stage::AssumingElderDuties(..)));
    // a second delivery changes nothing
    let again = run(&mut n, NodeDuty::AssumeElderDuties(knowledge(2, false, 7)), no_signing()).unwrap();
    assert!(again.is_empty());
}

#[test]
fn genesis_participant_waits() {
    let mut n = node(false);
    run(&mut n, NodeDuty::AssumeAdultDuties, no_signing()).unwrap();
    let ops = run(&mut n, NodeDuty::AssumeElderDuties(knowledge(2, true, 3)), no_signing()).unwrap();
    assert!(ops.is_empty());
    assert!(matches!(n.stage, Stage::Genesis(GenesisStage::AwaitingGenesisThreshold(..))));
}

#[test]
fn genesis_originator_proposes() {
    let mut n = node(false);
    run(&mut n, NodeDuty::AssumeAdultDuties, no_signing()).unwrap();
    let ops = run(&mut n, NodeDuty::AssumeElderDuties(knowledge(4, true, 5)), signing(40)).unwrap();
    assert_eq!(ops.len(), 1);
    match &ops[0] {
        Operation::ProposeGenesis { credit, sig, section_key } => {
            assert_eq!(credit.id, GENESIS_CREDIT_ID);
            assert_eq!(credit.amount, GENESIS_AMOUNT);
            assert_eq!(credit.recipient, SECTION_KEY);
            assert_eq!(&credit.memo[..7], b"genesis");
            assert_eq!(sig.index, 4);
            assert_eq!(sig.share, [40; 96]);
            assert_eq!(*section_key, SECTION_KEY);
        }
        other => panic!("unexpected {:?}", other),
    }
    match &n.stage {
        Stage::Genesis(GenesisStage::ProposingGenesis(round)) => {
            assert_eq!(round.signature_count(), 1);
            assert!(round.aggregate_signature().is_none());
        }
        _ => panic!("not proposing"),
    }
}

#[test]
fn genesis_originator_without_own_share_fails() {
    let mut n = node(false);
    run(&mut n, NodeDuty::AssumeAdultDuties, no_signing()).unwrap();
    let r = run(&mut n, NodeDuty::AssumeElderDuties(knowledge(4, true, 5)), no_signing());
    assert!(matches!(r, Err(Error::Collaborator)));
    assert!(matches!(n.stage, Stage::Adult(_)));
}

#[test]
fn non_first_section_never_enters_genesis() {
    let mut n = node(false);
    run(&mut n, NodeDuty::AssumeAdultDuties, no_signing()).unwrap();
    run(&mut n, NodeDuty::AssumeElderDuties(knowledge(4, false, 5)), signing(40)).unwrap();
    assert!(matches!(n.stage, Stage::AssumingElderDuties(..)));
    let sig = SignatureShare { index: 1, share: [1; 96] };
    let r = run(&mut n, NodeDuty::ReceiveGenesisProposal { credit: genesis_credit(), sig }, signing(40));
    assert!(matches!(r, Err(Error::InvalidOperation)));
    assert!(matches!(n.stage, Stage::AssumingElderDuties(..)));
}

#[test]
fn proposal_to_adult_is_invalid() {
    let mut n = node(false);
    run(&mut n, NodeDuty::AssumeAdultDuties, no_signing()).unwrap();
    let sig = SignatureShare { index: 1, share: [1; 96] };
    let r = run(&mut n, NodeDuty::ReceiveGenesisAccumulation {
        signed_credit: sn_node::types::SignedCredit { credit: genesis_credit(), signature: [3; 96] },
        sig,
    }, signing(1));
    assert!(matches!(r, Err(Error::InvalidOperation)));
}

#[test]
fn invalid_share_is_rejected() {
    let mut n = node(false);
    run(&mut n, NodeDuty::AssumeAdultDuties, no_signing()).unwrap();
    run(&mut n, NodeDuty::AssumeElderDuties(knowledge(2, true, 3)), no_signing()).unwrap();
    let sig = SignatureShare { index: 1, share: [1; 96] };
    let mut bad = signing(2);
    bad.share_valid = false;
    let r = run(&mut n, NodeDuty::ReceiveGenesisProposal { credit: genesis_credit(), sig }, bad);
    assert!(matches!(r, Err(Error::InvalidShare)));
    assert!(matches!(n.stage, Stage::Genesis(GenesisStage::AwaitingGenesisThreshold(..))));
    let outside = SignatureShare { index: 5, share: [1; 96] };
    let r = run(&mut n, NodeDuty::ReceiveGenesisProposal { credit: genesis_credit(), sig: outside }, signing(2));
    assert!(matches!(r, Err(Error::InvalidShare)));
}

#[test]
fn queued_duties_replay_in_order_before_registrations() {
    let mut n = node(false);
    run(&mut n, NodeDuty::AssumeAdultDuties, no_signing()).unwrap();
    run(&mut n, NodeDuty::AssumeElderDuties(knowledge(2, false, 7)), no_signing()).unwrap();
    for k in 1..=3u64 {
        let ops = n.process(NetworkDuty::RunAsElder(duty(k)), no_signing()).unwrap();
        assert!(ops.is_empty());
    }
    let wallet = WalletInfo { replicas: SECTION_KEY, credits: vec![] };
    let ops = run(&mut n, NodeDuty::InitSectionWallet { wallet, genesis_knowledge: None }, no_signing()).unwrap();
    assert_eq!(ops.len(), 6);
    assert!(matches!(ops[0], Operation::InitLedger { genesis: None, .. }));
    for k in 1..=3usize {
        assert!(matches!(&ops[k], Operation::RunElderDuty(d) if d.kind == k as u64));
    }
    assert!(matches!(ops[4], Operation::AddNewNode { node } if node == [2; 32]));
    assert!(matches!(ops[5], Operation::SetNodeWallet { node, wallet } if node == [2; 32] && wallet == REWARD_KEY));
    // an elder runs its duties at once
    let ops = n.process(NetworkDuty::RunAsElder(duty(9)), no_signing()).unwrap();
    assert!(matches!(&ops[0], Operation::RunElderDuty(d) if d.kind == 9));
    // and finalizes once only
    let wallet = WalletInfo { replicas: SECTION_KEY, credits: vec![] };
    let again = run(&mut n, NodeDuty::InitSectionWallet { wallet, genesis_knowledge: None }, no_signing()).unwrap();
    assert!(again.is_empty());
}

#[test]
fn elder_duty_outside_promotion_is_refused() {
    let mut n = node(false);
    let r = n.process(NetworkDuty::RunAsElder(duty(1)), no_signing());
    assert!(matches!(r, Err(Error::Logic)));
    assert!(!n.try_enqueue_elder_duty(duty(2)));
}

#[test]
fn adult_duty_runs_only_on_adult() {
    let mut n = node(false);
    let d = sn_node::types::AdultDuty { kind: 1, payload: vec![] };
    assert!(matches!(n.process(NetworkDuty::RunAsAdult(d), no_signing()), Err(Error::Logic)));
    run(&mut n, NodeDuty::AssumeAdultDuties, no_signing()).unwrap();
    let d = sn_node::types::AdultDuty { kind: 1, payload: vec![] };
    let ops = n.process(NetworkDuty::RunAsAdult(d), no_signing()).unwrap();
    assert!(matches!(&ops[0], Operation::RunAdultDuty(d) if d.kind == 1));
}

#[test]
fn finishing_from_adult_is_invalid() {
    let mut n = node(false);
    run(&mut n, NodeDuty::AssumeAdultDuties, no_signing()).unwrap();
    let wallet = WalletInfo { replicas: SECTION_KEY, credits: vec![] };
    let r = run(&mut n, NodeDuty::InitSectionWallet { wallet, genesis_knowledge: None }, no_signing());
    assert!(matches!(r, Err(Error::InvalidOperation)));
}

#[test]
fn genesis_infant_finishes_with_knowledge() {
    let mut n = node(true);
    let wallet = WalletInfo { replicas: SECTION_KEY, credits: vec![] };
    let ops = run(&mut n, NodeDuty::InitSectionWallet { wallet, genesis_knowledge: Some(knowledge(0, true, 1)) }, no_signing()).unwrap();
    assert_eq!(ops.len(), 3);
    assert!(matches!(n.stage, Stage::Elder(_)));
}

#[test]
fn wallet_registration_and_node_state() {
    let mut n = node(false);
    assert!(matches!(n.node_state(), Err(Error::InvalidOperation)));
    assert!(matches!(run(&mut n, NodeDuty::RegisterWallet([3; 48]), no_signing()), Err(Error::InvalidOperation)));
    run(&mut n, NodeDuty::AssumeAdultDuties, no_signing()).unwrap();
    assert!(matches!(n.node_state(), Ok(NodeState::Adult(_))));
    assert!(n.adult_duties().is_some());
    assert!(n.elder_duties().is_none());
    let ops = run(&mut n, NodeDuty::RegisterWallet([3; 48]), no_signing()).unwrap();
    assert!(matches!(ops[0], Operation::SendWalletRegistration { wallet, node } if wallet == [3; 48] && node == [1; 32]));
    let ops = run(&mut n, NodeDuty::StorageFull, no_signing()).unwrap();
    assert!(matches!(ops[0], Operation::NotifyStorageFull { node } if node == [1; 32]));
}

#[test]
fn elder_change_is_forwarded_only_by_elders() {
    let mut n = node(false);
    let ops = run(&mut n, NodeDuty::FinishElderChange { previous_key: [1; 48], new_key: [2; 48] }, no_signing()).unwrap();
    assert!(ops.is_empty());
    run(&mut n, NodeDuty::AssumeAdultDuties, no_signing()).unwrap();
    run(&mut n, NodeDuty::AssumeElderDuties(knowledge(2, false, 7)), no_signing()).unwrap();
    let wallet = WalletInfo { replicas: SECTION_KEY, credits: vec![] };
    run(&mut n, NodeDuty::InitSectionWallet { wallet, genesis_knowledge: None }, no_signing()).unwrap();
    let ops = run(&mut n, NodeDuty::InitiateElderChange(knowledge(2, false, 7)), no_signing()).unwrap();
    assert!(matches!(ops[0], Operation::InitiateElderChange(_)));
    let ops = run(&mut n, NodeDuty::FinishElderChange { previous_key: [1; 48], new_key: [2; 48] }, no_signing()).unwrap();
    assert!(matches!(ops[0], Operation::FinishElderChange { .. }));
}

#[test]
fn wallet_section_enables_once() {
    let ws = WalletSection::pre_elder(RateLimit::new(1, Capacity::new()), identity(3));
    assert!(ws.transfers().replica.initiating);
    assert_eq!(ws.transfers().replica.key_index, 3);
    let mut ws = ws.enable().unwrap();
    ws.increase_full_node_count(11);
    ws.increase_full_node_count(11);
    assert_eq!(ws.transfers().rate_limit.capacity.full_nodes(), 1);
    ws.elders_changed(identity(2), RateLimit::new(2, Capacity::new()));
    assert!(!ws.transfers().replica.initiating);
    assert_eq!(ws.transfers().replica.key_index, 2);
    assert_eq!(ws.transfers().rate_limit.prefix_len, 2);
    assert!(matches!(ws.enable(), Err(Error::InvalidOperation)));
}
