use crate::genesis::{added, GenesisRound};
use crate::types::{
    Combination, Credit, CreditProof, ElderDuty, ElderIdentity, ElderKnowledge, Error,
    NetworkDuty, NodeDuty, Operation, Payload, SignatureShare, SignedCredit, SigningRequest,
    SigningResults, WalletInfo, GENESIS_AMOUNT, GENESIS_CHAIN_BOUND, GENESIS_CREDIT_ID,
    GENESIS_ELDER_COUNT, GENESIS_MEMO, SignedTarget,
};
use vstd::prelude::*;

verus! {

/// Settings of the node itself.
#[derive(Clone, Copy, Debug)]
pub struct NodeInfo {
    /// This node starts the network.
    pub genesis: bool,
    /// Where this node's rewards are paid.
    pub reward_key: [u8; 48],
}

#[derive(Clone, Copy, Debug)]
pub struct AdultState {
    pub node_id: [u8; 32],
}

/// What a node that holds duties is, as the rest of the node sees it.
#[derive(Clone, Copy, Debug)]
pub enum NodeState {
    Adult(AdultState),
    Elder(ElderIdentity),
}

impl NodeState {
    pub open spec fn spec_node_id(self) -> [u8; 32] {
        match self {
            NodeState::Adult(a) => a.node_id,
            NodeState::Elder(id) => id.node_name,
        }
    }

    pub fn node_id(&self) -> (r: [u8; 32])
        ensures
            r == self.spec_node_id(),
    {
        match self {
            NodeState::Adult(a) => a.node_id,
            NodeState::Elder(id) => id.node_name,
        }
    }
}

/// The sub-stages of a first section's genesis.
pub enum GenesisStage {
    AwaitingGenesisThreshold(ElderIdentity, Vec<ElderDuty>),
    ProposingGenesis(GenesisRound<Credit>),
    AccumulatingGenesis(GenesisRound<SignedCredit>),
}

/// A node's level of responsibility.
pub enum Stage {
    Infant,
    Adult(AdultState),
    Genesis(GenesisStage),
    AssumingElderDuties(ElderIdentity, Vec<ElderDuty>),
    Elder(ElderIdentity),
}

/// A key share that lies within its group, with a threshold below the
/// group's size.
pub open spec fn valid_identity(id: ElderIdentity) -> bool {
    &&& id.share_index < id.group_size
    &&& id.threshold < id.group_size
}

fn valid(id: &ElderIdentity) -> (r: bool)
    ensures
        r == valid_identity(*id),
{
    id.share_index < id.group_size && id.threshold < id.group_size
}

/// The one genesis credit a first section's elders sign.
pub open spec fn genesis_credit(id: ElderIdentity) -> Credit {
    Credit { id: GENESIS_CREDIT_ID, amount: GENESIS_AMOUNT, recipient: id.section_key, memo: GENESIS_MEMO }
}

pub open spec fn own_share(id: ElderIdentity, share: [u8; 96]) -> SignatureShare {
    SignatureShare { index: id.share_index, share }
}

/// Capability order of the stages; the genesis sub-stages and a pending
/// promotion share one level.
pub open spec fn level(s: Stage) -> nat {
    match s {
        Stage::Infant => 0,
        Stage::Adult(_) => 1,
        Stage::Genesis(_) => 2,
        Stage::AssumingElderDuties(..) => 2,
        Stage::Elder(_) => 3,
    }
}

/// The stages in which section-leader duties are held back.
pub open spec fn is_transitional(s: Stage) -> bool {
    s is Genesis || s is AssumingElderDuties
}

/// The duties held back in a transitional stage.
pub open spec fn queue_of(s: Stage) -> Seq<ElderDuty> {
    match s {
        Stage::Genesis(GenesisStage::AwaitingGenesisThreshold(_, q)) => q@,
        Stage::Genesis(GenesisStage::ProposingGenesis(r)) => r.queued_ops@,
        Stage::Genesis(GenesisStage::AccumulatingGenesis(r)) => r.queued_ops@,
        Stage::AssumingElderDuties(_, q) => q@,
        _ => Seq::empty(),
    }
}

pub open spec fn run_duty(d: ElderDuty) -> Operation {
    Operation::RunElderDuty(d)
}

/// What follows the ledger seed when a node becomes an elder: each
/// held-back duty in arrival order, then its two reward registrations.
pub open spec fn tail_ops(id: ElderIdentity, queue: Seq<ElderDuty>, reward_key: [u8; 48]) -> Seq<Operation> {
    queue.map_values(|d: ElderDuty| run_duty(d)) + seq![
        Operation::AddNewNode { node: id.node_name },
        Operation::SetNodeWallet { node: id.node_name, wallet: reward_key },
    ]
}

/// What a node emits when it becomes an elder: the seed for the ledger,
/// then the held-back duties and the reward registrations.
pub open spec fn finalize_ops(
    id: ElderIdentity,
    queue: Seq<ElderDuty>,
    wallet: WalletInfo,
    genesis: Option<CreditProof>,
    reward_key: [u8; 48],
) -> Seq<Operation> {
    seq![Operation::InitLedger { wallet, genesis }] + tail_ops(id, queue, reward_key)
}

impl Stage {
    /// Every identity the stage holds is valid, and a round in progress is
    /// below its threshold: a round that reaches it has moved on.
    pub open spec fn wf(self) -> bool {
        match self {
            Stage::Genesis(GenesisStage::AwaitingGenesisThreshold(id, _)) => valid_identity(id),
            Stage::Genesis(GenesisStage::ProposingGenesis(r)) => r.wf() && valid_identity(r.identity) && r.aggregate() is None,
            Stage::Genesis(GenesisStage::AccumulatingGenesis(r)) => r.wf() && valid_identity(r.identity) && r.aggregate() is None,
            Stage::AssumingElderDuties(id, _) => valid_identity(id),
            Stage::Elder(id) => valid_identity(id),
            _ => true,
        }
    }
}

/// The lifecycle of one node: which duties it holds, and how each event
/// moves it on.
pub struct NodeDuties {
    pub node_info: NodeInfo,
    pub node_id: [u8; 32],
    pub stage: Stage,
}

impl NodeDuties {
    pub open spec fn wf(&self) -> bool {
        self.stage.wf()
    }

    /// Whether the node is well formed: every identity its stage holds is
    /// valid, and so is every round.
    pub fn is_well_formed(&self) -> (r: bool)
        ensures
            r == self.wf(),
    {
        match &self.stage {
            Stage::Genesis(GenesisStage::AwaitingGenesisThreshold(id, _)) => valid(id),
            Stage::Genesis(GenesisStage::ProposingGenesis(r)) => {
                r.is_well_formed() && valid(&r.identity) && r.aggregate_signature().is_none()
            },
            Stage::Genesis(GenesisStage::AccumulatingGenesis(r)) => {
                r.is_well_formed() && valid(&r.identity) && r.aggregate_signature().is_none()
            },
            Stage::AssumingElderDuties(id, _) => valid(id),
            Stage::Elder(id) => valid(id),
            _ => true,
        }
    }

    /// A node that has just joined.
    pub fn new(node_info: NodeInfo, node_id: [u8; 32]) -> (r: NodeDuties)
        ensures
            r.wf(),
            r.node_info == node_info,
            r.node_id == node_id,
            r.stage is Infant,
    {
        NodeDuties { node_info, node_id, stage: Stage::Infant }
    }

    pub fn adult_duties(&self) -> (r: Option<AdultState>)
        ensures
            r == match self.stage {
                Stage::Adult(a) => Some(a),
                _ => None::<AdultState>,
            },
    {
        match &self.stage {
            Stage::Adult(a) => Some(*a),
            _ => None,
        }
    }

    pub fn elder_duties(&self) -> (r: Option<ElderIdentity>)
        ensures
            r == match self.stage {
                Stage::Elder(id) => Some(id),
                _ => None::<ElderIdentity>,
            },
    {
        match &self.stage {
            Stage::Elder(id) => Some(*id),
            _ => None,
        }
    }

    /// Holds `duty` back when the node is on its way to elder; the stage is
    /// left as it is otherwise.
    pub fn try_enqueue_elder_duty(&mut self, duty: ElderDuty) -> (r: bool)
        requires
            old(self).wf(),
        ensures
            final(self).wf(),
            final(self).node_info == old(self).node_info,
            final(self).node_id == old(self).node_id,
            r <==> is_transitional(old(self).stage),
            r ==> {
                &&& is_transitional(final(self).stage)
                &&& queue_of(final(self).stage) == queue_of(old(self).stage).push(duty)
                &&& same_but_queue(old(self).stage, final(self).stage)
            },
            !r ==> final(self).stage == old(self).stage,
    {
        let mut st = Stage::Infant;
        std::mem::swap(&mut st, &mut self.stage);
        match st {
            Stage::AssumingElderDuties(id, mut q) => {
                q.push(duty);
                self.stage = Stage::AssumingElderDuties(id, q);
                true
            },
            Stage::Genesis(GenesisStage::AwaitingGenesisThreshold(id, mut q)) => {
                q.push(duty);
                self.stage = Stage::Genesis(GenesisStage::AwaitingGenesisThreshold(id, q));
                true
            },
            Stage::Genesis(GenesisStage::ProposingGenesis(mut round)) => {
                round.enqueue(duty);
                self.stage = Stage::Genesis(GenesisStage::ProposingGenesis(round));
                true
            },
            Stage::Genesis(GenesisStage::AccumulatingGenesis(mut round)) => {
                round.enqueue(duty);
                self.stage = Stage::Genesis(GenesisStage::AccumulatingGenesis(round));
                true
            },
            other => {
                self.stage = other;
                false
            },
        }
    }

    pub fn node_state(&self) -> (r: Result<NodeState, Error>)
        ensures
            r == match self.stage {
                Stage::Elder(id) => Ok(NodeState::Elder(id)),
                Stage::Adult(a) => Ok(NodeState::Adult(a)),
                _ => Err(Error::InvalidOperation),
            },
    {
        match &self.stage {
            Stage::Elder(id) => Ok(NodeState::Elder(*id)),
            Stage::Adult(a) => Ok(NodeState::Adult(*a)),
            _ => Err(Error::InvalidOperation),
        }
    }
}

impl NodeDuties {
    /// A node that takes up adult duties registers its reward wallet; a
    /// node at adult level or above is left as it is.
    pub fn assume_adult_duties(&mut self) -> (r: Vec<Operation>)
        requires
            old(self).wf(),
        ensures
            adult_outcome(*old(self), *final(self), r),
    {
        if let Stage::Infant = self.stage {
            self.stage = Stage::Adult(AdultState { node_id: self.node_id });
            let mut ops = Vec::new();
            ops.push(Operation::RegisterWallet { wallet: self.node_info.reward_key });
            ops
        } else {
            Vec::new()
        }
    }

    /// The node is the fifth elder of the first section, whose key history is
    /// still short: it proposes genesis.
    pub open spec fn is_originator(&self, k: ElderKnowledge) -> bool {
        &&& k.first_section
        &&& k.elder_count == GENESIS_ELDER_COUNT
        &&& self.stage is Adult
        &&& k.chain_len <= GENESIS_CHAIN_BOUND
    }

    /// The first section has fewer than five elders yet: the node waits for genesis.
    pub open spec fn is_participant(k: ElderKnowledge) -> bool {
        &&& k.first_section
        &&& k.elder_count < GENESIS_ELDER_COUNT
        &&& k.chain_len <= GENESIS_CHAIN_BOUND
    }

    /// Promotion to elder, decided on one snapshot `k` of the network: the
    /// genesis originator proposes the genesis credit with its own share
    /// from `signing`, a genesis participant waits for the proposal, any
    /// other node asks its section for the wallet history. A node already
    /// on its way to elder, or an elder, is left as it is.
    pub fn begin_transition_to_elder(&mut self, k: ElderKnowledge, signing: SigningResults) -> (r: Result<Vec<Operation>, Error>)
        requires
            old(self).wf(),
        ensures
            elder_begin_outcome(*old(self), *final(self), k, signing, r),
    {
        match self.stage {
            Stage::Infant => {
                if !self.node_info.genesis {
                    return Err(Error::InvalidOperation);
                }
            },
            Stage::Adult(_) => {},
            _ => {
                return Ok(Vec::new());
            },
        }
        let id = k.identity;
        if !valid(&id) {
            return Err(Error::InvalidOperation);
        }
        let is_adult = match self.stage {
            Stage::Adult(_) => true,
            _ => false,
        };
        if k.first_section && k.elder_count == GENESIS_ELDER_COUNT && is_adult && k.chain_len <= GENESIS_CHAIN_BOUND {
            if signing.own_share.is_none() || (opening_exceeds(id, None) && (signing.aggregate.is_none()
                || signing.own_signed_share.is_none() || signing.aggregate_signed.is_none())) {
                return Err(Error::Collaborator);
            }
            let credit = Credit { id: GENESIS_CREDIT_ID, amount: GENESIS_AMOUNT, recipient: id.section_key, memo: GENESIS_MEMO };
            let (stage, ops) = open_round_one(id, credit, None, signing, Vec::new(), self.node_info.reward_key);
            self.stage = stage;
            Ok(ops)
        } else if k.first_section && k.elder_count < GENESIS_ELDER_COUNT && k.chain_len <= GENESIS_CHAIN_BOUND {
            self.stage = Stage::Genesis(GenesisStage::AwaitingGenesisThreshold(id, Vec::new()));
            Ok(Vec::new())
        } else {
            self.stage = Stage::AssumingElderDuties(id, Vec::new());
            let mut ops = Vec::new();
            ops.push(Operation::QueryWalletHistory { section_key: id.section_key });
            Ok(ops)
        }
    }
}

/// The ledger seed, the held-back duties in order, then the reward
/// registrations of a node that becomes an elder as `id`.
fn finalize_ops_exec(
    id: ElderIdentity,
    queue: Vec<ElderDuty>,
    wallet: WalletInfo,
    genesis: Option<CreditProof>,
    reward_key: [u8; 48],
) -> (r: Vec<Operation>)
    ensures
        r@ == finalize_ops(id, queue@, wallet, genesis, reward_key),
{
    let ghost w = wallet;
    let mut ops: Vec<Operation> = Vec::new();
    ops.push(Operation::InitLedger { wallet, genesis });
    let mut q = queue;
    let ghost q0 = q@;
    while q.len() > 0
        invariant
            q0.len() >= q@.len(),
            q@ == q0.subrange(q0.len() - q@.len(), q0.len() as int),
            ops@ == seq![Operation::InitLedger { wallet: w, genesis }] + q0.subrange(
                0,
                q0.len() - q@.len(),
            ).map_values(|d: ElderDuty| run_duty(d)),
        decreases q@.len(),
    {
        let ghost k = q0.len() - q@.len();
        let d = q.remove(0);
        ops.push(Operation::RunElderDuty(d));
        proof {
            assert(d == q0[k]);
            assert(q0.subrange(0, k + 1).map_values(|d: ElderDuty| run_duty(d)) =~= q0.subrange(
                0,
                k,
            ).map_values(|d: ElderDuty| run_duty(d)).push(run_duty(d)));
            assert(q@ =~= q0.subrange(k + 1, q0.len() as int));
        }
    }
    ops.push(Operation::AddNewNode { node: id.node_name });
    ops.push(Operation::SetNodeWallet { node: id.node_name, wallet: reward_key });
    proof {
        assert(q0.subrange(0, q0.len() as int) =~= q0);
        assert(ops@ =~= finalize_ops(id, queue@, wallet, genesis, reward_key));
    }
    ops
}

/// The signers of a round opened with this node's share and `incoming`.
pub open spec fn opening_signers(id: ElderIdentity, incoming: Option<SignatureShare>) -> Set<u64> {
    match incoming {
        Some(s) => set![s.index, id.share_index],
        None => set![id.share_index],
    }
}

/// `recorded` holds this node's share `own` and `incoming`, one per signer.
pub open spec fn opening_shares(recorded: Seq<SignatureShare>, own: SignatureShare, incoming: Option<SignatureShare>) -> bool {
    forall|x: SignatureShare|
        #[trigger] recorded.contains(x) <==> (x == own || (incoming == Some(x) && x.index != own.index))
}

/// Round two cannot be opened: this node's share over the signed credit is
/// missing, or the group signature that the opening shares complete.
pub open spec fn round_two_missing(
    id: ElderIdentity,
    incoming: Option<SignatureShare>,
    own_signed_share: Option<[u8; 96]>,
    aggregate_signed: Option<[u8; 96]>,
) -> bool {
    own_signed_share is None || (opening_signers(id, incoming).len() > id.threshold && aggregate_signed is None)
}

/// Round one cannot be opened: this node's share over the credit is
/// missing, or, where the opening shares complete it, the group signature,
/// or what round two needs.
pub open spec fn round_one_missing(id: ElderIdentity, incoming: Option<SignatureShare>, s: SigningResults) -> bool {
    s.own_share is None || (opening_signers(id, incoming).len() > id.threshold && (s.aggregate is None
        || round_two_missing(id, None, s.own_signed_share, s.aggregate_signed)))
}

/// The node opened round two over `signed` with its share `own2` and
/// `incoming`, and broadcast its share. Where those shares already
/// outnumber the threshold, the credit proof is complete and the node is
/// an elder; otherwise it accumulates.
pub open spec fn round_two_opened(
    post: Stage,
    ops: Seq<Operation>,
    id: ElderIdentity,
    signed: SignedCredit,
    incoming: Option<SignatureShare>,
    own2: [u8; 96],
    aggregate_signed: Option<[u8; 96]>,
    queue: Seq<ElderDuty>,
    reward_key: [u8; 48],
) -> bool {
    let own = own_share(id, own2);
    &&& ops.len() >= 1
    &&& ops[0] == Operation::AccumulateGenesis { signed_credit: signed, sig: own, section_key: id.section_key }
    &&& if opening_signers(id, incoming).len() > id.threshold {
        let credit_proof = CreditProof { signed_credit: signed, signature: aggregate_signed->0, replicas: id.section_key };
        &&& aggregate_signed is Some
        &&& post == Stage::Elder(id)
        &&& genesis_finalized(ops.drop_first(), credit_proof, id, queue, reward_key)
    } else {
        &&& ops.len() == 1
        &&& post matches Stage::Genesis(GenesisStage::AccumulatingGenesis(next))
        &&& next.identity == id
        &&& next.artifact == signed
        &&& next.queued_ops@ == queue
        &&& next.signers() == opening_signers(id, incoming)
        &&& opening_shares(next.recorded(), own, incoming)
        &&& next.aggregate() is None
    }
}

/// The node opened round one over `credit` with its share and `incoming`,
/// and broadcast its share. Where those shares already outnumber the
/// threshold, it moves straight on to round two over the signed credit.
pub open spec fn round_one_opened(
    post: Stage,
    ops: Seq<Operation>,
    id: ElderIdentity,
    credit: Credit,
    incoming: Option<SignatureShare>,
    s: SigningResults,
    queue: Seq<ElderDuty>,
    reward_key: [u8; 48],
) -> bool {
    let own = own_share(id, s.own_share->0);
    &&& ops.len() >= 1
    &&& ops[0] == Operation::ProposeGenesis { credit, sig: own, section_key: id.section_key }
    &&& if opening_signers(id, incoming).len() > id.threshold {
        &&& s.aggregate is Some
        &&& round_two_opened(
            post,
            ops.drop_first(),
            id,
            SignedCredit { credit, signature: s.aggregate->0 },
            None,
            s.own_signed_share->0,
            s.aggregate_signed,
            queue,
            reward_key,
        )
    } else {
        &&& ops.len() == 1
        &&& post matches Stage::Genesis(GenesisStage::ProposingGenesis(next))
        &&& next.identity == id
        &&& next.artifact == credit
        &&& next.queued_ops@ == queue
        &&& next.signers() == opening_signers(id, incoming)
        &&& opening_shares(next.recorded(), own, incoming)
        &&& next.aggregate() is None
    }
}

proof fn lemma_pair_len(a: u64, b: u64)
    ensures
        set![a].len() == 1,
        set![a, b].len() == if a == b { 1int } else { 2int },
        Set::<u64>::empty().insert(a) == set![a],
        Set::<u64>::empty().insert(a).insert(b) == set![a, b],
{
    assert(set![a].len() == 1);
    if a == b {
        assert(set![a, b] =~= set![a]);
    } else {
        assert(!set![a].contains(b));
    }
}

fn opening_exceeds(id: ElderIdentity, incoming: Option<SignatureShare>) -> (r: bool)
    ensures
        r == (opening_signers(id, incoming).len() > id.threshold),
{
    proof {
        lemma_pair_len(id.share_index, id.share_index);
    }
    match incoming {
        Some(s) => {
            proof {
                lemma_pair_len(s.index, id.share_index);
            }
            if s.index == id.share_index {
                1 > id.threshold
            } else {
                2 > id.threshold
            }
        },
        None => 1 > id.threshold,
    }
}

/// Opens round two over `signed` with this node's share `own2` and
/// `incoming`; a round complete at once makes the node an elder.
fn open_round_two(
    id: ElderIdentity,
    signed: SignedCredit,
    incoming: Option<SignatureShare>,
    own2: [u8; 96],
    aggregate_signed: Option<[u8; 96]>,
    queue: Vec<ElderDuty>,
    reward_key: [u8; 48],
) -> (r: (Stage, Vec<Operation>))
    requires
        valid_identity(id),
        incoming matches Some(s) ==> s.index < id.group_size,
        opening_signers(id, incoming).len() > id.threshold ==> aggregate_signed is Some,
    ensures
        r.0.wf(),
        round_two_opened(r.0, r.1@, id, signed, incoming, own2, aggregate_signed, queue@, reward_key),
{
    let own = SignatureShare { index: id.share_index, share: own2 };
    let mut round = GenesisRound::new(id, signed, Vec::new());
    proof {
        lemma_pair_len(id.share_index, id.share_index);
    }
    match incoming {
        Some(s) => {
            proof {
                lemma_pair_len(s.index, id.share_index);
            }
            let first = round.add(s, aggregate_signed);
            assert(first is Ok);
        },
        None => {},
    }
    let second = round.add(own, aggregate_signed);
    assert(second is Ok);
    assert(round.signers() == opening_signers(id, incoming));
    let mut ops = Vec::new();
    ops.push(Operation::AccumulateGenesis { signed_credit: signed, sig: own, section_key: id.section_key });
    match round.aggregate_signature() {
        Some(a) => {
            let credit_proof = CreditProof { signed_credit: signed, signature: a, replicas: id.section_key };
            let mut credits = Vec::new();
            credits.push(credit_proof);
            let wallet = WalletInfo { replicas: id.section_key, credits };
            let ghost w = wallet;
            let mut fin = finalize_ops_exec(id, queue, wallet, Some(credit_proof), reward_key);
            let ghost f = fin@;
            ops.append(&mut fin);
            proof {
                assert(ops@.drop_first() =~= f);
                assert(f.drop_first() =~= tail_ops(id, queue@, reward_key));
                assert(f[0] == Operation::InitLedger { wallet: w, genesis: Some(credit_proof) });
            }
            (Stage::Elder(id), ops)
        },
        None => {
            round.queued_ops = queue;
            (Stage::Genesis(GenesisStage::AccumulatingGenesis(round)), ops)
        },
    }
}

/// Opens round one over `credit` with this node's share and `incoming`;
/// a round complete at once moves straight on to round two.
fn open_round_one(
    id: ElderIdentity,
    credit: Credit,
    incoming: Option<SignatureShare>,
    s: SigningResults,
    queue: Vec<ElderDuty>,
    reward_key: [u8; 48],
) -> (r: (Stage, Vec<Operation>))
    requires
        valid_identity(id),
        incoming matches Some(x) ==> x.index < id.group_size,
        !round_one_missing(id, incoming, s),
    ensures
        r.0.wf(),
        round_one_opened(r.0, r.1@, id, credit, incoming, s, queue@, reward_key),
{
    let own = SignatureShare { index: id.share_index, share: s.own_share.unwrap() };
    let mut round = GenesisRound::new(id, credit, Vec::new());
    proof {
        lemma_pair_len(id.share_index, id.share_index);
    }
    match incoming {
        Some(x) => {
            proof {
                lemma_pair_len(x.index, id.share_index);
            }
            let first = round.add(x, s.aggregate);
            assert(first is Ok);
        },
        None => {},
    }
    let second = round.add(own, s.aggregate);
    assert(second is Ok);
    assert(round.signers() == opening_signers(id, incoming));
    let mut ops = Vec::new();
    ops.push(Operation::ProposeGenesis { credit, sig: own, section_key: id.section_key });
    match round.aggregate_signature() {
        Some(a) => {
            let signed = SignedCredit { credit, signature: a };
            let (stage, mut next) = open_round_two(id, signed, None, s.own_signed_share.unwrap(), s.aggregate_signed, queue, reward_key);
            let ghost n = next@;
            ops.append(&mut next);
            proof {
                assert(ops@.drop_first() =~= n);
            }
            (stage, ops)
        },
        None => {
            round.queued_ops = queue;
            (Stage::Genesis(GenesisStage::ProposingGenesis(round)), ops)
        },
    }
}

fn bytes_equal<const N: usize>(a: &[u8; N], b: &[u8; N]) -> (r: bool)
    ensures
        r == (*a == *b),
{
    let mut i: usize = 0;
    while i < N
        invariant
            0 <= i <= N,
            forall|j: int| 0 <= j < i ==> a[j] == b[j],
        decreases N - i,
    {
        if a[i] != b[i] {
            return false;
        }
        i = i + 1;
    }
    proof {
        assert(*a =~= *b);
    }
    true
}

fn same_credit(a: &Credit, b: &Credit) -> (r: bool)
    ensures
        r == (*a == *b),
{
    a.id == b.id && a.amount == b.amount && bytes_equal(&a.recipient, &b.recipient) && bytes_equal(&a.memo, &b.memo)
}

fn same_signed_credit(a: &SignedCredit, b: &SignedCredit) -> (r: bool)
    ensures
        r == (*a == *b),
{
    same_credit(&a.credit, &b.credit) && bytes_equal(&a.signature, &b.signature)
}

impl NodeDuties {
    /// Completes a promotion with the section's wallet history. A genesis
    /// node may do so from the start, given the first section's knowledge.
    pub fn finish_transition_to_elder(
        &mut self,
        wallet: WalletInfo,
        genesis_knowledge: Option<ElderKnowledge>,
    ) -> (r: Result<Vec<Operation>, Error>)
        requires
            old(self).wf(),
        ensures
            elder_finish_outcome(*old(self), *final(self), wallet, genesis_knowledge, r),
    {
        let reward_key = self.node_info.reward_key;
        let mut st = Stage::Infant;
        std::mem::swap(&mut st, &mut self.stage);
        match st {
            Stage::Elder(id) => {
                self.stage = Stage::Elder(id);
                Ok(Vec::new())
            },
            Stage::Infant => {
                self.stage = Stage::Infant;
                if !self.node_info.genesis {
                    return Err(Error::InvalidOperation);
                }
                match genesis_knowledge {
                    Some(k) => {
                        let id = k.identity;
                        if valid(&id) {
                            self.stage = Stage::Elder(id);
                            Ok(finalize_ops_exec(id, Vec::new(), wallet, None, reward_key))
                        } else {
                            Err(Error::InvalidOperation)
                        }
                    },
                    None => Err(Error::InvalidOperation),
                }
            },
            Stage::Genesis(GenesisStage::AccumulatingGenesis(round)) => {
                let GenesisRound { identity, artifact: _, signatures: _, pending_agreement: _, queued_ops } = round;
                self.stage = Stage::Elder(identity);
                Ok(finalize_ops_exec(identity, queued_ops, wallet, None, reward_key))
            },
            Stage::AssumingElderDuties(id, q) => {
                self.stage = Stage::Elder(id);
                Ok(finalize_ops_exec(id, q, wallet, None, reward_key))
            },
            other => {
                self.stage = other;
                Err(Error::InvalidOperation)
            },
        }
    }

    /// Round one of genesis: a peer's share over the proposed `credit`.
    /// A waiting participant opens the round with the peer's share and its
    /// own, and broadcasts its own; a proposing node records the share.
    /// Once the signers outnumber the threshold the node signs the signed
    /// credit and moves on to round two. Later stages ignore the proposal.
    pub fn receive_genesis_proposal(&mut self, credit: Credit, sig: SignatureShare, signing: SigningResults) -> (r: Result<Vec<Operation>, Error>)
        requires
            old(self).wf(),
        ensures
            proposal_outcome(*old(self), *final(self), credit, sig, signing, r),
    {
        let reward_key = self.node_info.reward_key;
        let mut st = Stage::Infant;
        std::mem::swap(&mut st, &mut self.stage);
        match st {
            Stage::Genesis(GenesisStage::AwaitingGenesisThreshold(id, q)) => {
                let expected = Credit { id: GENESIS_CREDIT_ID, amount: GENESIS_AMOUNT, recipient: id.section_key, memo: GENESIS_MEMO };
                if !same_credit(&credit, &expected) {
                    self.stage = Stage::Genesis(GenesisStage::AwaitingGenesisThreshold(id, q));
                    return Err(Error::InvalidOperation);
                }
                if !signing.share_valid || sig.index >= id.group_size {
                    self.stage = Stage::Genesis(GenesisStage::AwaitingGenesisThreshold(id, q));
                    return Err(Error::InvalidShare);
                }
                let exceeds = opening_exceeds(id, Some(sig));
                if signing.own_share.is_none() || (exceeds && (signing.aggregate.is_none()
                    || signing.own_signed_share.is_none() || (opening_exceeds(id, None) && signing.aggregate_signed.is_none()))) {
                    self.stage = Stage::Genesis(GenesisStage::AwaitingGenesisThreshold(id, q));
                    return Err(Error::Collaborator);
                }
                let (stage, ops) = open_round_one(id, credit, Some(sig), signing, q, reward_key);
                self.stage = stage;
                Ok(ops)
            },
            Stage::Genesis(GenesisStage::ProposingGenesis(mut round)) => {
                let id = round.identity;
                if !same_credit(&credit, &round.artifact) || !signing.share_valid || sig.index >= id.group_size {
                    self.stage = Stage::Genesis(GenesisStage::ProposingGenesis(round));
                    return Err(Error::InvalidShare);
                }
                let completes = round.reaches_threshold_with(sig.index);
                if completes && (signing.aggregate.is_none() || signing.own_signed_share.is_none()
                    || (opening_exceeds(id, None) && signing.aggregate_signed.is_none())) {
                    self.stage = Stage::Genesis(GenesisStage::ProposingGenesis(round));
                    return Err(Error::Collaborator);
                }
                let added = round.add(sig, signing.aggregate);
                assert(added is Ok);
                match round.aggregate_signature() {
                    Some(a) => {
                        let signed = SignedCredit { credit: round.artifact, signature: a };
                        let GenesisRound { identity: _, artifact: _, signatures: _, pending_agreement: _, queued_ops } = round;
                        let (stage, ops) = open_round_two(
                            id,
                            signed,
                            None,
                            signing.own_signed_share.unwrap(),
                            signing.aggregate_signed,
                            queued_ops,
                            reward_key,
                        );
                        self.stage = stage;
                        Ok(ops)
                    },
                    None => {
                        self.stage = Stage::Genesis(GenesisStage::ProposingGenesis(round));
                        Ok(Vec::new())
                    },
                }
            },
            Stage::Genesis(GenesisStage::AccumulatingGenesis(round)) => {
                self.stage = Stage::Genesis(GenesisStage::AccumulatingGenesis(round));
                Ok(Vec::new())
            },
            Stage::Elder(id) => {
                self.stage = Stage::Elder(id);
                Ok(Vec::new())
            },
            other => {
                self.stage = other;
                Err(Error::InvalidOperation)
            },
        }
    }

    /// Round two of genesis: a peer's share over the signed credit. A node
    /// still proposing opens round two with the peer's share and its own,
    /// and broadcasts its own; an accumulating node records the share. Once
    /// the signers outnumber the threshold the credit proof is complete and
    /// the node becomes an elder, with the proof as the seed of its ledger.
    pub fn receive_genesis_accumulation(
        &mut self,
        signed_credit: SignedCredit,
        sig: SignatureShare,
        signing: SigningResults,
    ) -> (r: Result<Vec<Operation>, Error>)
        requires
            old(self).wf(),
        ensures
            accumulation_outcome(*old(self), *final(self), signed_credit, sig, signing, r),
    {
        let reward_key = self.node_info.reward_key;
        let mut st = Stage::Infant;
        std::mem::swap(&mut st, &mut self.stage);
        match st {
            Stage::Genesis(GenesisStage::ProposingGenesis(round)) => {
                let id = round.identity;
                if !same_credit(&signed_credit.credit, &round.artifact) || !signing.share_valid || sig.index >= id.group_size {
                    self.stage = Stage::Genesis(GenesisStage::ProposingGenesis(round));
                    return Err(Error::InvalidShare);
                }
                if signing.own_signed_share.is_none() || (opening_exceeds(id, Some(sig)) && signing.aggregate_signed.is_none()) {
                    self.stage = Stage::Genesis(GenesisStage::ProposingGenesis(round));
                    return Err(Error::Collaborator);
                }
                let GenesisRound { identity: _, artifact: _, signatures: _, pending_agreement: _, queued_ops } = round;
                let (stage, ops) = open_round_two(
                    id,
                    signed_credit,
                    Some(sig),
                    signing.own_signed_share.unwrap(),
                    signing.aggregate_signed,
                    queued_ops,
                    reward_key,
                );
                self.stage = stage;
                Ok(ops)
            },
            Stage::Genesis(GenesisStage::AccumulatingGenesis(mut round)) => {
                let id = round.identity;
                if !same_signed_credit(&signed_credit, &round.artifact) || !signing.share_valid || sig.index >= id.group_size {
                    self.stage = Stage::Genesis(GenesisStage::AccumulatingGenesis(round));
                    return Err(Error::InvalidShare);
                }
                match round.add(sig, signing.aggregate_signed) {
                    Err(e) => {
                        self.stage = Stage::Genesis(GenesisStage::AccumulatingGenesis(round));
                        return Err(e);
                    },
                    Ok(()) => {},
                }
                match round.aggregate_signature() {
                    Some(a) => {
                        let credit_proof = CreditProof { signed_credit: round.artifact, signature: a, replicas: id.section_key };
                        let mut credits = Vec::new();
                        credits.push(credit_proof);
                        let wallet = WalletInfo { replicas: id.section_key, credits };
                        let GenesisRound { identity: _, artifact: _, signatures: _, pending_agreement: _, queued_ops } = round;
                        let ghost q = queued_ops@;
                        let ghost w = wallet;
                        self.stage = Stage::Elder(id);
                        let ops = finalize_ops_exec(id, queued_ops, wallet, Some(credit_proof), reward_key);
                        proof {
                            assert(ops@.drop_first() =~= tail_ops(id, q, reward_key));
                            assert(ops@[0] == Operation::InitLedger { wallet: w, genesis: Some(credit_proof) });
                        }
                        Ok(ops)
                    },
                    None => {
                        self.stage = Stage::Genesis(GenesisStage::AccumulatingGenesis(round));
                        Ok(Vec::new())
                    },
                }
            },
            Stage::Elder(id) => {
                self.stage = Stage::Elder(id);
                Ok(Vec::new())
            },
            other => {
                self.stage = other;
                Err(Error::InvalidOperation)
            },
        }
    }
}

/// The operations of a node that completes genesis with `proof`: the ledger
/// seeded with the proof as the section's one credit, then the held-back
/// duties and the reward registrations.
pub open spec fn genesis_finalized(
    ops: Seq<Operation>,
    proof: CreditProof,
    id: ElderIdentity,
    queue: Seq<ElderDuty>,
    reward_key: [u8; 48],
) -> bool {
    &&& ops.len() >= 1
    &&& ops[0] matches Operation::InitLedger { wallet, genesis }
    &&& wallet.replicas == id.section_key
    &&& wallet.credits@ == seq![proof]
    &&& genesis == Some(proof)
    &&& ops.drop_first() == tail_ops(id, queue, reward_key)
}

/// How `assume_adult_duties` moves `pre` to `post`, returning `r`.
pub open spec fn adult_outcome(pre: NodeDuties, post: NodeDuties, r: Vec<Operation>) -> bool {
    &&& post.wf()
    &&& post.node_info == pre.node_info
    &&& post.node_id == pre.node_id
    &&& pre.stage is Infant ==> {
        &&& post.stage == Stage::Adult(AdultState { node_id: pre.node_id })
        &&& r@ == seq![Operation::RegisterWallet { wallet: pre.node_info.reward_key }]
    }
    &&& !(pre.stage is Infant) ==> post.stage == pre.stage && r@.len() == 0
}

/// How `begin_transition_to_elder` moves `pre` to `post`, returning `r`.
pub open spec fn elder_begin_outcome(pre: NodeDuties, post: NodeDuties, k: ElderKnowledge, signing: SigningResults, r: Result<Vec<Operation>, Error>) -> bool {
    &&& post.wf()
    &&& post.node_info == pre.node_info
    &&& post.node_id == pre.node_id
    &&& r is Err ==> post.stage == pre.stage
    &&& level(pre.stage) >= 2 ==> post.stage == pre.stage && (r matches Ok(ops) && ops@.len() == 0)
    &&& level(pre.stage) < 2 ==> {
        let id = k.identity;
        if pre.stage is Infant && !pre.node_info.genesis {
            r == Err::<Vec<Operation>, Error>(Error::InvalidOperation)
        } else if !valid_identity(id) {
            r == Err::<Vec<Operation>, Error>(Error::InvalidOperation)
        } else if pre.is_originator(k) {
            if round_one_missing(id, None, signing) {
                r == Err::<Vec<Operation>, Error>(Error::Collaborator)
            } else {
                r matches Ok(ops) && round_one_opened(post.stage, ops@, id, genesis_credit(id), None, signing, Seq::empty(), pre.node_info.reward_key)
            }
        } else if NodeDuties::is_participant(k) {
            &&& r matches Ok(ops) && ops@.len() == 0
            &&& post.stage matches Stage::Genesis(GenesisStage::AwaitingGenesisThreshold(i, q))
            &&& i == id && q@.len() == 0
        } else {
            &&& r matches Ok(ops) && ops@ == seq![Operation::QueryWalletHistory { section_key: id.section_key }]
            &&& post.stage matches Stage::AssumingElderDuties(i, q)
            &&& i == id && q@.len() == 0
        }
    }
}

/// How `finish_transition_to_elder` moves `pre` to `post`, returning `r`.
pub open spec fn elder_finish_outcome(pre: NodeDuties, post: NodeDuties, wallet: WalletInfo, genesis_knowledge: Option<ElderKnowledge>, r: Result<Vec<Operation>, Error>) -> bool {
    &&& post.wf()
    &&& post.node_info == pre.node_info
    &&& post.node_id == pre.node_id
    &&& r is Err ==> post.stage == pre.stage
    &&& pre.stage is Elder ==> post.stage == pre.stage && (r matches Ok(ops) && ops@.len() == 0)
    &&& pre.stage is Infant ==> if pre.node_info.genesis && genesis_knowledge is Some
        && valid_identity(genesis_knowledge->0.identity) {
        let id = genesis_knowledge->0.identity;
        &&& post.stage == Stage::Elder(id)
        &&& r matches Ok(ops) && ops@ == finalize_ops(id, Seq::empty(), wallet, None, pre.node_info.reward_key)
    } else {
        r == Err::<Vec<Operation>, Error>(Error::InvalidOperation)
    }
    &&& (pre.stage is Adult || pre.stage matches Stage::Genesis(GenesisStage::AwaitingGenesisThreshold(..))
        || pre.stage matches Stage::Genesis(GenesisStage::ProposingGenesis(_)))
        ==> r == Err::<Vec<Operation>, Error>(Error::InvalidOperation)
    &&& pre.stage matches Stage::Genesis(GenesisStage::AccumulatingGenesis(round)) ==> {
        &&& post.stage == Stage::Elder(round.identity)
        &&& r matches Ok(ops) && ops@ == finalize_ops(round.identity, round.queued_ops@, wallet, None, pre.node_info.reward_key)
    }
    &&& pre.stage matches Stage::AssumingElderDuties(id, q) ==> {
        &&& post.stage == Stage::Elder(id)
        &&& r matches Ok(ops) && ops@ == finalize_ops(id, q@, wallet, None, pre.node_info.reward_key)
    }
}

/// How `receive_genesis_proposal` moves `pre` to `post`, returning `r`.
pub open spec fn proposal_outcome(pre: NodeDuties, post: NodeDuties, credit: Credit, sig: SignatureShare, signing: SigningResults, r: Result<Vec<Operation>, Error>) -> bool {
    let rk = pre.node_info.reward_key;
    &&& post.wf()
    &&& post.node_info == pre.node_info
    &&& post.node_id == pre.node_id
    &&& r is Err ==> post.stage == pre.stage
    &&& (pre.stage is Elder || pre.stage matches Stage::Genesis(GenesisStage::AccumulatingGenesis(_)))
        ==> post.stage == pre.stage && (r matches Ok(ops) && ops@.len() == 0)
    &&& (pre.stage is Infant || pre.stage is Adult || pre.stage is AssumingElderDuties)
        ==> r == Err::<Vec<Operation>, Error>(Error::InvalidOperation)
    &&& pre.stage matches Stage::Genesis(GenesisStage::AwaitingGenesisThreshold(id, q)) ==> {
        if credit != genesis_credit(id) {
            r == Err::<Vec<Operation>, Error>(Error::InvalidOperation)
        } else if !signing.share_valid || sig.index >= id.group_size {
            r == Err::<Vec<Operation>, Error>(Error::InvalidShare)
        } else if round_one_missing(id, Some(sig), signing) {
            r == Err::<Vec<Operation>, Error>(Error::Collaborator)
        } else {
            r matches Ok(ops) && round_one_opened(post.stage, ops@, id, credit, Some(sig), signing, q@, rk)
        }
    }
    &&& pre.stage matches Stage::Genesis(GenesisStage::ProposingGenesis(round)) ==> {
        let id = round.identity;
        let completes = round.signers().insert(sig.index).len() > id.threshold;
        if credit != round.artifact || !signing.share_valid || sig.index >= id.group_size {
            r == Err::<Vec<Operation>, Error>(Error::InvalidShare)
        } else if completes && (signing.aggregate is None || round_two_missing(id, None, signing.own_signed_share, signing.aggregate_signed)) {
            r == Err::<Vec<Operation>, Error>(Error::Collaborator)
        } else if !completes {
            &&& r matches Ok(ops) && ops@.len() == 0
            &&& post.stage matches Stage::Genesis(GenesisStage::ProposingGenesis(next))
            &&& added(round, next, sig, signing.aggregate)
        } else {
            r matches Ok(ops) && round_two_opened(
                post.stage,
                ops@,
                id,
                SignedCredit { credit: round.artifact, signature: signing.aggregate->0 },
                None,
                signing.own_signed_share->0,
                signing.aggregate_signed,
                round.queued_ops@,
                rk,
            )
        }
    }
}

/// How `receive_genesis_accumulation` moves `pre` to `post`, returning `r`.
pub open spec fn accumulation_outcome(pre: NodeDuties, post: NodeDuties, signed_credit: SignedCredit, sig: SignatureShare, signing: SigningResults, r: Result<Vec<Operation>, Error>) -> bool {
    let rk = pre.node_info.reward_key;
    &&& post.wf()
    &&& post.node_info == pre.node_info
    &&& post.node_id == pre.node_id
    &&& r is Err ==> post.stage == pre.stage
    &&& pre.stage is Elder ==> post.stage == pre.stage && (r matches Ok(ops) && ops@.len() == 0)
    &&& (pre.stage is Infant || pre.stage is Adult || pre.stage is AssumingElderDuties
        || pre.stage matches Stage::Genesis(GenesisStage::AwaitingGenesisThreshold(..)))
        ==> r == Err::<Vec<Operation>, Error>(Error::InvalidOperation)
    &&& pre.stage matches Stage::Genesis(GenesisStage::ProposingGenesis(round)) ==> {
        let id = round.identity;
        if signed_credit.credit != round.artifact || !signing.share_valid || sig.index >= id.group_size {
            r == Err::<Vec<Operation>, Error>(Error::InvalidShare)
        } else if round_two_missing(id, Some(sig), signing.own_signed_share, signing.aggregate_signed) {
            r == Err::<Vec<Operation>, Error>(Error::Collaborator)
        } else {
            r matches Ok(ops) && round_two_opened(
                post.stage,
                ops@,
                id,
                signed_credit,
                Some(sig),
                signing.own_signed_share->0,
                signing.aggregate_signed,
                round.queued_ops@,
                rk,
            )
        }
    }
    &&& pre.stage matches Stage::Genesis(GenesisStage::AccumulatingGenesis(round)) ==> {
        let id = round.identity;
        let completes = round.signers().insert(sig.index).len() > id.threshold;
        if signed_credit != round.artifact || !signing.share_valid || sig.index >= id.group_size {
            r == Err::<Vec<Operation>, Error>(Error::InvalidShare)
        } else if completes && signing.aggregate_signed is None {
            r == Err::<Vec<Operation>, Error>(Error::Collaborator)
        } else if !completes {
            &&& r matches Ok(ops) && ops@.len() == 0
            &&& post.stage matches Stage::Genesis(GenesisStage::AccumulatingGenesis(next))
            &&& added(round, next, sig, signing.aggregate_signed)
        } else {
            let credit_proof = CreditProof {
                signed_credit: round.artifact,
                signature: signing.aggregate_signed->0,
                replicas: id.section_key,
            };
            &&& post.stage == Stage::Elder(id)
            &&& r matches Ok(ops) && genesis_finalized(ops@, credit_proof, id, round.queued_ops@, rk)
        }
    }
}

impl NodeDuties {
    /// An elder hands a change of elders on to its section-leader duties;
    /// no other stage acts on it.
    pub fn initiate_elder_change(&self, k: ElderKnowledge) -> (r: Vec<Operation>)
        ensures
            r@ == if self.stage is Elder { seq![Operation::InitiateElderChange(k)] } else { Seq::empty() },
    {
        let mut ops = Vec::new();
        if let Stage::Elder(_) = self.stage {
            ops.push(Operation::InitiateElderChange(k));
        }
        ops
    }

    /// An elder hands the end of a change of elders on to its
    /// section-leader duties; no other stage acts on it.
    pub fn finish_elder_change(&self, previous_key: [u8; 48], new_key: [u8; 48]) -> (r: Vec<Operation>)
        ensures
            r@ == if self.stage is Elder {
                seq![Operation::FinishElderChange { previous_key, new_key }]
            } else {
                Seq::empty()
            },
    {
        let mut ops = Vec::new();
        if let Stage::Elder(_) = self.stage {
            ops.push(Operation::FinishElderChange { previous_key, new_key });
        }
        ops
    }

    /// Sends the registration of `wallet` on behalf of this adult or elder.
    pub fn register_wallet(&self, wallet: [u8; 48]) -> (r: Result<Vec<Operation>, Error>)
        ensures
            match self.stage {
                Stage::Adult(a) => r matches Ok(ops) && ops@ == seq![Operation::SendWalletRegistration { wallet, node: a.node_id }],
                Stage::Elder(id) => r matches Ok(ops) && ops@ == seq![Operation::SendWalletRegistration { wallet, node: id.node_name }],
                _ => r == Err::<Vec<Operation>, Error>(Error::InvalidOperation),
            },
    {
        let state = self.node_state()?;
        let mut ops = Vec::new();
        ops.push(Operation::SendWalletRegistration { wallet, node: state.node_id() });
        Ok(ops)
    }

    /// Tells the section that this node's storage is full.
    pub fn notify_section_of_our_storage(&self) -> (r: Vec<Operation>)
        ensures
            r@ == seq![Operation::NotifyStorageFull { node: self.node_id }],
    {
        let mut ops = Vec::new();
        ops.push(Operation::NotifyStorageFull { node: self.node_id });
        ops
    }

    /// Handles one lifecycle event; `signing` holds what the signing
    /// collaborator computed for it.
    pub fn process_node_duty(&mut self, duty: NodeDuty, signing: SigningResults) -> (r: Result<Vec<Operation>, Error>)
        requires
            old(self).wf(),
        ensures
            node_duty_outcome(*old(self), *final(self), duty, signing, r),
    {
        match duty {
            NodeDuty::RegisterWallet(wallet) => self.register_wallet(wallet),
            NodeDuty::AssumeAdultDuties => Ok(self.assume_adult_duties()),
            NodeDuty::AssumeElderDuties(k) => self.begin_transition_to_elder(k, signing),
            NodeDuty::ReceiveGenesisProposal { credit, sig } => self.receive_genesis_proposal(credit, sig, signing),
            NodeDuty::ReceiveGenesisAccumulation { signed_credit, sig } => self.receive_genesis_accumulation(signed_credit, sig, signing),
            NodeDuty::InitiateElderChange(k) => Ok(self.initiate_elder_change(k)),
            NodeDuty::FinishElderChange { previous_key, new_key } => Ok(self.finish_elder_change(previous_key, new_key)),
            NodeDuty::InitSectionWallet { wallet, genesis_knowledge } => self.finish_transition_to_elder(wallet, genesis_knowledge),
            NodeDuty::StorageFull => Ok(self.notify_section_of_our_storage()),
            NodeDuty::NoOp => Ok(Vec::new()),
        }
    }

    /// Handles one piece of work: an adult or elder duty runs at its level,
    /// an elder duty that arrives during a promotion is held back, and a
    /// lifecycle event moves the stage.
    pub fn process(&mut self, duty: NetworkDuty, signing: SigningResults) -> (r: Result<Vec<Operation>, Error>)
        requires
            old(self).wf(),
        ensures
            final(self).wf(),
            final(self).node_info == old(self).node_info,
            final(self).node_id == old(self).node_id,
            match duty {
                NetworkDuty::RunAsAdult(d) => {
                    &&& final(self).stage == old(self).stage
                    &&& if old(self).stage is Adult {
                        r matches Ok(ops) && ops@ == seq![Operation::RunAdultDuty(d)]
                    } else {
                        r == Err::<Vec<Operation>, Error>(Error::Logic)
                    }
                },
                NetworkDuty::RunAsElder(d) => if old(self).stage is Elder {
                    &&& final(self).stage == old(self).stage
                    &&& r matches Ok(ops) && ops@ == seq![Operation::RunElderDuty(d)]
                } else if is_transitional(old(self).stage) {
                    &&& r matches Ok(ops) && ops@.len() == 0
                    &&& is_transitional(final(self).stage)
                    &&& queue_of(final(self).stage) == queue_of(old(self).stage).push(d)
                    &&& same_but_queue(old(self).stage, final(self).stage)
                } else {
                    &&& final(self).stage == old(self).stage
                    &&& r == Err::<Vec<Operation>, Error>(Error::Logic)
                },
                NetworkDuty::RunAsNode(d) => node_duty_outcome(*old(self), *final(self), d, signing, r),
                NetworkDuty::NoOp => final(self).stage == old(self).stage && (r matches Ok(ops) && ops@.len() == 0),
            },
    {
        match duty {
            NetworkDuty::RunAsAdult(d) => {
                if let Stage::Adult(_) = self.stage {
                    let mut ops = Vec::new();
                    ops.push(Operation::RunAdultDuty(d));
                    Ok(ops)
                } else {
                    Err(Error::Logic)
                }
            },
            NetworkDuty::RunAsElder(d) => {
                if let Stage::Elder(_) = self.stage {
                    let mut ops = Vec::new();
                    ops.push(Operation::RunElderDuty(d));
                    Ok(ops)
                } else if self.try_enqueue_elder_duty(d) {
                    Ok(Vec::new())
                } else {
                    Err(Error::Logic)
                }
            },
            NetworkDuty::RunAsNode(d) => self.process_node_duty(d, signing),
            NetworkDuty::NoOp => Ok(Vec::new()),
        }
    }
}

/// How `process_node_duty` moves `pre` to `post` on `duty`, returning `r`.
pub open spec fn node_duty_outcome(
    pre: NodeDuties,
    post: NodeDuties,
    duty: NodeDuty,
    signing: SigningResults,
    r: Result<Vec<Operation>, Error>,
) -> bool {
    match duty {
        NodeDuty::RegisterWallet(wallet) => {
            &&& post == pre
            &&& match pre.stage {
                Stage::Adult(a) => r matches Ok(ops) && ops@ == seq![Operation::SendWalletRegistration { wallet, node: a.node_id }],
                Stage::Elder(id) => r matches Ok(ops) && ops@ == seq![Operation::SendWalletRegistration { wallet, node: id.node_name }],
                _ => r == Err::<Vec<Operation>, Error>(Error::InvalidOperation),
            }
        },
        NodeDuty::AssumeAdultDuties => r matches Ok(ops) && adult_outcome(pre, post, ops),
        NodeDuty::AssumeElderDuties(k) => elder_begin_outcome(pre, post, k, signing, r),
        NodeDuty::ReceiveGenesisProposal { credit, sig } => proposal_outcome(pre, post, credit, sig, signing, r),
        NodeDuty::ReceiveGenesisAccumulation { signed_credit, sig } => accumulation_outcome(pre, post, signed_credit, sig, signing, r),
        NodeDuty::InitiateElderChange(k) => {
            &&& post == pre
            &&& r matches Ok(ops) && ops@ == if pre.stage is Elder { seq![Operation::InitiateElderChange(k)] } else { Seq::empty() }
        },
        NodeDuty::FinishElderChange { previous_key, new_key } => {
            &&& post == pre
            &&& r matches Ok(ops) && ops@ == if pre.stage is Elder {
                seq![Operation::FinishElderChange { previous_key, new_key }]
            } else {
                Seq::empty()
            }
        },
        NodeDuty::InitSectionWallet { wallet, genesis_knowledge } => elder_finish_outcome(pre, post, wallet, genesis_knowledge, r),
        NodeDuty::StorageFull => post == pre && (r matches Ok(ops) && ops@ == seq![Operation::NotifyStorageFull { node: pre.node_id }]),
        NodeDuty::NoOp => post == pre && (r matches Ok(ops) && ops@.len() == 0),
    }
}

/// The request holds nothing: the event needs no signing work.
pub open spec fn no_request(r: SigningRequest) -> bool {
    &&& r.check is None
    &&& r.credit is None && !r.sign_credit && r.combine_credit is None
    &&& r.signed is None && !r.sign_signed && r.combine_signed is None
}

pub open spec fn combination_is(c: Option<Combination>, shares: Seq<SignatureShare>, own_index: Option<u64>) -> bool {
    c matches Some(x) && x.shares@ == shares && x.own_index == own_index
}

/// Nothing is asked over the signed credit.
pub open spec fn nothing_signed(r: SigningRequest) -> bool {
    r.signed is None && !r.sign_signed && r.combine_signed is None
}

/// Round one over `credit` completes: this node signs the signed credit
/// made with the round's group signature, and where its own share alone
/// completes round two, that round's group signature is combined too.
pub open spec fn completing_round_one(id: ElderIdentity, credit: Credit, r: SigningRequest) -> bool {
    &&& r.signed == Some(SignedTarget::FromRoundOne(credit))
    &&& r.sign_signed
    &&& if id.threshold == 0 {
        combination_is(r.combine_signed, Seq::empty(), Some(id.share_index))
    } else {
        r.combine_signed is None
    }
}

/// The request of a node that opens round one over `credit` with its own
/// share and `incoming`.
pub open spec fn opening_request(id: ElderIdentity, credit: Credit, incoming: Option<SignatureShare>, r: SigningRequest) -> bool {
    &&& r.credit == Some(credit)
    &&& r.sign_credit
    &&& if opening_signers(id, incoming).len() > id.threshold {
        &&& combination_is(
            r.combine_credit,
            match incoming {
                Some(s) => seq![s],
                None => Seq::empty(),
            },
            Some(id.share_index),
        )
        &&& completing_round_one(id, credit, r)
    } else {
        r.combine_credit is None && nothing_signed(r)
    }
}

/// `r` asks the signing collaborator for exactly what handling `duty` in
/// the node's stage reads from it.
pub open spec fn request_for(n: NodeDuties, duty: NodeDuty, r: SigningRequest) -> bool {
    match duty {
        NodeDuty::AssumeElderDuties(k) => if n.is_originator(k) {
            r.check is None && opening_request(k.identity, genesis_credit(k.identity), None, r)
        } else {
            no_request(r)
        },
        NodeDuty::ReceiveGenesisProposal { credit, sig } => match n.stage {
            Stage::Genesis(GenesisStage::AwaitingGenesisThreshold(id, _)) => {
                r.check == Some((sig, Payload::Credit(credit))) && opening_request(id, credit, Some(sig), r)
            },
            Stage::Genesis(GenesisStage::ProposingGenesis(round)) => {
                let id = round.identity;
                &&& r.check == Some((sig, Payload::Credit(round.artifact)))
                &&& r.credit == Some(round.artifact)
                &&& !r.sign_credit
                &&& if round.signers().insert(sig.index).len() > id.threshold {
                    &&& combination_is(r.combine_credit, round.recorded().push(sig), None)
                    &&& completing_round_one(id, round.artifact, r)
                } else {
                    r.combine_credit is None && nothing_signed(r)
                }
            },
            _ => no_request(r),
        },
        NodeDuty::ReceiveGenesisAccumulation { signed_credit, sig } => match n.stage {
            Stage::Genesis(GenesisStage::ProposingGenesis(round)) => {
                let id = round.identity;
                &&& r.check == Some((sig, Payload::SignedCredit(signed_credit)))
                &&& r.credit is None && !r.sign_credit && r.combine_credit is None
                &&& r.signed == Some(SignedTarget::Given(signed_credit))
                &&& r.sign_signed
                &&& if opening_signers(id, Some(sig)).len() > id.threshold {
                    combination_is(r.combine_signed, seq![sig], Some(id.share_index))
                } else {
                    r.combine_signed is None
                }
            },
            Stage::Genesis(GenesisStage::AccumulatingGenesis(round)) => {
                let id = round.identity;
                &&& r.check == Some((sig, Payload::SignedCredit(round.artifact)))
                &&& r.credit is None && !r.sign_credit && r.combine_credit is None
                &&& r.signed == Some(SignedTarget::Given(round.artifact))
                &&& !r.sign_signed
                &&& if round.signers().insert(sig.index).len() > id.threshold {
                    combination_is(r.combine_signed, round.recorded().push(sig), None)
                } else {
                    r.combine_signed is None
                }
            },
            _ => no_request(r),
        },
        _ => no_request(r),
    }
}

fn single(s: Option<SignatureShare>) -> (r: Vec<SignatureShare>)
    ensures
        r@ == match s {
            Some(x) => seq![x],
            None => Seq::<SignatureShare>::empty(),
        },
{
    let mut v = Vec::new();
    if let Some(x) = s {
        v.push(x);
    }
    proof {
        if s is Some {
            assert(v@ =~= seq![s->0]);
        }
    }
    v
}

fn own_only(id: ElderIdentity) -> (r: Option<Combination>)
    ensures
        if id.threshold == 0 {
            combination_is(r, Seq::empty(), Some(id.share_index))
        } else {
            r is None
        },
{
    if id.threshold == 0 {
        Some(Combination { shares: Vec::new(), own_index: Some(id.share_index) })
    } else {
        None
    }
}

/// The request of a node that opens round one over `credit`.
fn opening(id: ElderIdentity, credit: Credit, incoming: Option<SignatureShare>, check: Option<(SignatureShare, Payload)>) -> (r: SigningRequest)
    ensures
        r.check == check,
        opening_request(id, credit, incoming, r),
{
    if opening_exceeds(id, incoming) {
        SigningRequest {
            check,
            credit: Some(credit),
            sign_credit: true,
            combine_credit: Some(Combination { shares: single(incoming), own_index: Some(id.share_index) }),
            signed: Some(SignedTarget::FromRoundOne(credit)),
            sign_signed: true,
            combine_signed: own_only(id),
        }
    } else {
        SigningRequest {
            check,
            credit: Some(credit),
            sign_credit: true,
            combine_credit: None,
            signed: None,
            sign_signed: false,
            combine_signed: None,
        }
    }
}

impl NodeDuties {
    /// What the signing collaborator has to compute before this node
    /// handles `duty`; the results go to `process` as its signing results.
    pub fn signing_request(&self, duty: &NodeDuty) -> (r: SigningRequest)
        requires
            self.wf(),
        ensures
            request_for(*self, *duty, r),
    {
        let none = SigningRequest {
            check: None,
            credit: None,
            sign_credit: false,
            combine_credit: None,
            signed: None,
            sign_signed: false,
            combine_signed: None,
        };
        match duty {
            NodeDuty::AssumeElderDuties(k) => {
                let is_adult = match self.stage {
                    Stage::Adult(_) => true,
                    _ => false,
                };
                if k.first_section && k.elder_count == GENESIS_ELDER_COUNT && is_adult && k.chain_len <= GENESIS_CHAIN_BOUND {
                    let credit = Credit {
                        id: GENESIS_CREDIT_ID,
                        amount: GENESIS_AMOUNT,
                        recipient: k.identity.section_key,
                        memo: GENESIS_MEMO,
                    };
                    opening(k.identity, credit, None, None)
                } else {
                    none
                }
            },
            NodeDuty::ReceiveGenesisProposal { credit, sig } => match &self.stage {
                Stage::Genesis(GenesisStage::AwaitingGenesisThreshold(id, _)) => {
                    opening(*id, *credit, Some(*sig), Some((*sig, Payload::Credit(*credit))))
                },
                Stage::Genesis(GenesisStage::ProposingGenesis(round)) => {
                    let id = round.identity;
                    let check = Some((*sig, Payload::Credit(round.artifact)));
                    if round.reaches_threshold_with(sig.index) {
                        SigningRequest {
                            check,
                            credit: Some(round.artifact),
                            sign_credit: false,
                            combine_credit: Some(Combination { shares: round.shares_with(*sig), own_index: None }),
                            signed: Some(SignedTarget::FromRoundOne(round.artifact)),
                            sign_signed: true,
                            combine_signed: own_only(id),
                        }
                    } else {
                        SigningRequest {
                            check,
                            credit: Some(round.artifact),
                            sign_credit: false,
                            combine_credit: None,
                            signed: None,
                            sign_signed: false,
                            combine_signed: None,
                        }
                    }
                },
                _ => none,
            },
            NodeDuty::ReceiveGenesisAccumulation { signed_credit, sig } => match &self.stage {
                Stage::Genesis(GenesisStage::ProposingGenesis(round)) => {
                    let id = round.identity;
                    let combine_signed = if opening_exceeds(id, Some(*sig)) {
                        Some(Combination { shares: single(Some(*sig)), own_index: Some(id.share_index) })
                    } else {
                        None
                    };
                    SigningRequest {
                        check: Some((*sig, Payload::SignedCredit(*signed_credit))),
                        credit: None,
                        sign_credit: false,
                        combine_credit: None,
                        signed: Some(SignedTarget::Given(*signed_credit)),
                        sign_signed: true,
                        combine_signed,
                    }
                },
                Stage::Genesis(GenesisStage::AccumulatingGenesis(round)) => {
                    let combine_signed = if round.reaches_threshold_with(sig.index) {
                        Some(Combination { shares: round.shares_with(*sig), own_index: None })
                    } else {
                        None
                    };
                    SigningRequest {
                        check: Some((*sig, Payload::SignedCredit(round.artifact))),
                        credit: None,
                        sign_credit: false,
                        combine_credit: None,
                        signed: Some(SignedTarget::Given(round.artifact)),
                        sign_signed: false,
                        combine_signed,
                    }
                },
                _ => none,
            },
            _ => none,
        }
    }
}

/// Two stages differ at most in the duties they hold back.
pub open spec fn same_but_queue(a: Stage, b: Stage) -> bool {
    match (a, b) {
        (Stage::AssumingElderDuties(i, _), Stage::AssumingElderDuties(j, _)) => i == j,
        (
            Stage::Genesis(GenesisStage::AwaitingGenesisThreshold(i, _)),
            Stage::Genesis(GenesisStage::AwaitingGenesisThreshold(j, _)),
        ) => i == j,
        (
            Stage::Genesis(GenesisStage::ProposingGenesis(r)),
            Stage::Genesis(GenesisStage::ProposingGenesis(s)),
        ) => r.identity == s.identity && r.artifact == s.artifact && r.recorded() == s.recorded()
            && r.aggregate() == s.aggregate(),
        (
            Stage::Genesis(GenesisStage::AccumulatingGenesis(r)),
            Stage::Genesis(GenesisStage::AccumulatingGenesis(s)),
        ) => r.identity == s.identity && r.artifact == s.artifact && r.recorded() == s.recorded()
            && r.aggregate() == s.aggregate(),
        _ => false,
    }
}

} // verus!
