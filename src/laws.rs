use crate::genesis::{added, GenesisRound};
use crate::node_duties::{
    adult_outcome, elder_begin_outcome, genesis_credit, proposal_outcome, is_transitional, opening_signers,
    round_one_opened, round_two_opened, valid_identity, node_duty_outcome, queue_of, run_duty,
    tail_ops, GenesisStage, NodeDuties, Stage,
};
use crate::types::{
    Credit, ElderIdentity, CreditProof, ElderDuty, ElderKnowledge, Error, NodeDuty, Operation, SignatureShare,
    SignedCredit, SigningResults, GENESIS_AMOUNT, GENESIS_CREDIT_ID, GENESIS_MEMO,
};
use vstd::prelude::*;

verus! {

/// Taking up adult duties twice: the first call leaves the node an adult,
/// the second changes nothing and emits nothing.
pub proof fn lemma_assume_adult_idempotent(
    a: NodeDuties,
    b: NodeDuties,
    c: NodeDuties,
    r1: Vec<Operation>,
    r2: Vec<Operation>,
)
    requires
        a.wf(),
        a.stage is Infant || a.stage is Adult,
        adult_outcome(a, b, r1),
        adult_outcome(b, c, r2),
    ensures
        b.stage is Adult,
        c.stage == b.stage,
        r2@.len() == 0,
{
}

/// A share from a signer already recorded leaves the count of signers as
/// it was, a new signer adds one, and the round holds its group signature
/// exactly when more than `threshold` signers are recorded.
pub proof fn lemma_threshold_exactness<A>(
    pre: GenesisRound<A>,
    post: GenesisRound<A>,
    sig: SignatureShare,
    aggregate: Option<[u8; 96]>,
)
    requires
        pre.wf(),
        added(pre, post, sig, aggregate),
    ensures
        pre.signers().contains(sig.index) ==> post.signers().len() == pre.signers().len(),
        !pre.signers().contains(sig.index) ==> post.signers().len() == pre.signers().len() + 1,
        post.aggregate() is Some <==> post.signers().len() > post.identity.threshold,
        pre.aggregate() is Some ==> post.aggregate() == pre.aggregate(),
{
    pre.indices().unique_seq_to_set();
}

/// A proposing node that gets a share again from a signer it has already
/// recorded, over its credit, emits nothing and keeps proposing with the
/// same signers: a repeated share never counts twice.
pub proof fn lemma_repeated_share(
    pre: NodeDuties,
    post: NodeDuties,
    credit: Credit,
    sig: SignatureShare,
    s: SigningResults,
    r: Result<Vec<Operation>, Error>,
)
    requires
        pre.wf(),
        pre.stage matches Stage::Genesis(GenesisStage::ProposingGenesis(round)) && round.signers().contains(sig.index)
            && credit == round.artifact,
        s.share_valid,
        proposal_outcome(pre, post, credit, sig, s, r),
    ensures
        r matches Ok(ops) && ops@.len() == 0,
        pre.stage matches Stage::Genesis(GenesisStage::ProposingGenesis(round)) ==> {
            &&& post.stage matches Stage::Genesis(GenesisStage::ProposingGenesis(next))
            &&& next.signers() == round.signers()
            &&& next.signer_count() == round.signer_count()
            &&& next.aggregate() is None
        },
{
    if let Stage::Genesis(GenesisStage::ProposingGenesis(round)) = pre.stage {
        round.indices().unique_seq_to_set();
        assert(round.signers().insert(sig.index) =~= round.signers());
        let k = choose|k: int| 0 <= k < round.indices().len() && round.indices()[k] == sig.index;
        assert(round.recorded()[k].index < round.identity.group_size);
    }
}

/// A genesis event, of either round.
pub open spec fn is_genesis_event(d: NodeDuty) -> bool {
    d is ReceiveGenesisProposal || d is ReceiveGenesisAccumulation
}

/// A node promoted on a snapshot of any section but the first never enters
/// genesis, and a genesis share sent to it afterwards is refused as an
/// invalid operation.
pub proof fn lemma_genesis_exclusivity(
    pre: NodeDuties,
    mid: NodeDuties,
    post: NodeDuties,
    k: ElderKnowledge,
    s1: SigningResults,
    r1: Result<Vec<Operation>, Error>,
    d: NodeDuty,
    s2: SigningResults,
    r2: Result<Vec<Operation>, Error>,
)
    requires
        pre.wf(),
        pre.stage is Infant || pre.stage is Adult,
        !k.first_section,
        elder_begin_outcome(pre, mid, k, s1, r1),
        is_genesis_event(d),
        node_duty_outcome(mid, post, d, s2, r2),
    ensures
        !(mid.stage is Genesis),
        r2 == Err::<Vec<Operation>, Error>(Error::InvalidOperation),
        post.stage == mid.stage,
{
}

/// The genesis credit of the section whose key is `key`.
pub open spec fn credit_for_key(key: [u8; 48]) -> Credit {
    Credit { id: GENESIS_CREDIT_ID, amount: GENESIS_AMOUNT, recipient: key, memo: GENESIS_MEMO }
}

/// That credit with `g1`, the section's group signature over it.
pub open spec fn agreed_signed(key: [u8; 48], g1: [u8; 96]) -> SignedCredit {
    SignedCredit { credit: credit_for_key(key), signature: g1 }
}

/// The genesis proof: the signed credit with `g2`, the section's group
/// signature over it.
pub open spec fn agreed_proof(key: [u8; 48], g1: [u8; 96], g2: [u8; 96]) -> CreditProof {
    CreditProof { signed_credit: agreed_signed(key, g1), signature: g2, replicas: key }
}

/// Every round of the node's genesis is over the agreed artifact.
pub open spec fn on_genesis_track(s: Stage, key: [u8; 48], g1: [u8; 96]) -> bool {
    match s {
        Stage::Genesis(GenesisStage::AwaitingGenesisThreshold(id, _)) => id.section_key == key,
        Stage::Genesis(GenesisStage::ProposingGenesis(r)) => {
            r.identity.section_key == key && r.artifact == credit_for_key(key)
        },
        Stage::Genesis(GenesisStage::AccumulatingGenesis(r)) => {
            r.identity.section_key == key && r.artifact == agreed_signed(key, g1)
        },
        _ => true,
    }
}

/// The event comes from honest peers of the section whose key is `key`,
/// and the group signatures that the collaborator combined are the ones
/// over the credit and over the signed credit (a group signature is one
/// value per message, whichever shares were combined).
pub open spec fn honest_event(d: NodeDuty, s: SigningResults, key: [u8; 48], g1: [u8; 96], g2: [u8; 96]) -> bool {
    &&& s.aggregate is Some ==> s.aggregate == Some(g1)
    &&& s.aggregate_signed is Some ==> s.aggregate_signed == Some(g2)
    &&& match d {
        NodeDuty::AssumeElderDuties(k) => k.identity.section_key == key,
        NodeDuty::ReceiveGenesisProposal { credit, .. } => credit == credit_for_key(key),
        NodeDuty::ReceiveGenesisAccumulation { signed_credit, .. } => signed_credit == agreed_signed(key, g1),
        _ => true,
    }
}

/// A genesis message carries the agreed artifact, and a genesis proof
/// handed to the ledger is the agreed proof.
pub open spec fn agreed_op(op: Operation, key: [u8; 48], g1: [u8; 96], g2: [u8; 96]) -> bool {
    match op {
        Operation::ProposeGenesis { credit, .. } => credit == credit_for_key(key),
        Operation::AccumulateGenesis { signed_credit, .. } => signed_credit == agreed_signed(key, g1),
        Operation::InitLedger { genesis, .. } => genesis is Some ==> genesis == Some(agreed_proof(key, g1, g2)),
        _ => true,
    }
}

/// Every genesis message among `ops` carries the agreed artifact, and every
/// genesis proof handed to the ledger is the agreed proof.
pub open spec fn emits_agreed(ops: Seq<Operation>, key: [u8; 48], g1: [u8; 96], g2: [u8; 96]) -> bool {
    forall|i: int| 0 <= i < ops.len() ==> agreed_op(#[trigger] ops[i], key, g1, g2)
}

pub open spec fn hands_proof(op: Operation) -> bool {
    op matches Operation::InitLedger { genesis, .. } && genesis is Some
}

/// `ops` hand a genesis proof to the ledger.
pub open spec fn produces_genesis(ops: Seq<Operation>) -> bool {
    exists|i: int| 0 <= i < ops.len() && hands_proof(#[trigger] ops[i])
}

/// `ops` end with the ledger seed, then the replay of `queue` in order,
/// then the two reward registrations.
pub open spec fn ends_with_replay(ops: Seq<Operation>, id: ElderIdentity, queue: Seq<ElderDuty>, reward_key: [u8; 48]) -> bool {
    let t = tail_ops(id, queue, reward_key);
    &&& ops.len() > t.len()
    &&& ops[ops.len() - t.len() - 1] is InitLedger
    &&& ops.subrange(ops.len() - t.len(), ops.len() as int) == t
}

/// What follows the ledger seed on promotion holds no genesis message.
proof fn lemma_tail_plain(id: ElderIdentity, q: Seq<ElderDuty>, reward_key: [u8; 48])
    ensures
        forall|i: int|
            0 <= i < tail_ops(id, q, reward_key).len() ==> {
                let o = #[trigger] tail_ops(id, q, reward_key)[i];
                o is RunElderDuty || o is AddNewNode || o is SetNodeWallet
            },
{
    assert forall|i: int| 0 <= i < tail_ops(id, q, reward_key).len() implies {
        let o = #[trigger] tail_ops(id, q, reward_key)[i];
        o is RunElderDuty || o is AddNewNode || o is SetNodeWallet
    } by {
        if i < q.len() {
            assert(tail_ops(id, q, reward_key)[i] == run_duty(q[i]));
        }
    }
}

/// A ledger seed followed by the replay: agreed where the seed is, handing
/// over a proof only in the seed, and ending with the replay.
proof fn lemma_seeded(o: Seq<Operation>, id: ElderIdentity, q: Seq<ElderDuty>, rk: [u8; 48], key: [u8; 48], g1: [u8; 96], g2: [u8; 96])
    requires
        o.len() >= 1,
        o[0] is InitLedger,
        o.drop_first() == tail_ops(id, q, rk),
    ensures
        agreed_op(o[0], key, g1, g2) ==> emits_agreed(o, key, g1, g2),
        produces_genesis(o) ==> hands_proof(o[0]),
        ends_with_replay(o, id, q, rk),
{
    lemma_tail_plain(id, q, rk);
    assert forall|i: int| 1 <= i < o.len() implies {
        let x = #[trigger] o[i];
        x is RunElderDuty || x is AddNewNode || x is SetNodeWallet
    } by {
        assert(o[i] == o.drop_first()[i - 1]);
    }
    assert(o.subrange(1, o.len() as int) =~= o.drop_first());
}

/// Putting one operation in front keeps the replay at the end, and hands
/// over a proof only where the rest does.
proof fn lemma_prefixed(o: Seq<Operation>, id: ElderIdentity, q: Seq<ElderDuty>, rk: [u8; 48], key: [u8; 48], g1: [u8; 96], g2: [u8; 96])
    requires
        o.len() >= 1,
    ensures
        ends_with_replay(o.drop_first(), id, q, rk) ==> ends_with_replay(o, id, q, rk),
        agreed_op(o[0], key, g1, g2) && emits_agreed(o.drop_first(), key, g1, g2) ==> emits_agreed(o, key, g1, g2),
        produces_genesis(o) && !hands_proof(o[0]) ==> produces_genesis(o.drop_first()),
{
    let d = o.drop_first();
    let t = tail_ops(id, q, rk);
    if ends_with_replay(d, id, q, rk) {
        assert(o[o.len() - t.len() - 1] == d[d.len() - t.len() - 1]);
        assert(o.subrange(o.len() - t.len(), o.len() as int) =~= d.subrange(d.len() - t.len(), d.len() as int));
    }
    if agreed_op(o[0], key, g1, g2) && emits_agreed(d, key, g1, g2) {
        assert forall|i: int| 0 <= i < o.len() implies agreed_op(#[trigger] o[i], key, g1, g2) by {
            if i > 0 {
                assert(o[i] == d[i - 1]);
            }
        }
    }
    if produces_genesis(o) && !hands_proof(o[0]) {
        let i = choose|i: int| 0 <= i < o.len() && hands_proof(#[trigger] o[i]);
        assert(o[i] == d[i - 1]);
    }
}

/// A node that opened round two: a completed round ends in the replay,
/// and a proof is handed over only when the node became an elder.
proof fn lemma_round_two_shape(
    post: Stage,
    o: Seq<Operation>,
    id: ElderIdentity,
    signed: SignedCredit,
    incoming: Option<SignatureShare>,
    own2: [u8; 96],
    agg2: Option<[u8; 96]>,
    q: Seq<ElderDuty>,
    rk: [u8; 48],
    key: [u8; 48],
    g1: [u8; 96],
    g2: [u8; 96],
)
    requires
        round_two_opened(post, o, id, signed, incoming, own2, agg2, q, rk),
    ensures
        post is Elder ==> ends_with_replay(o, id, q, rk),
        produces_genesis(o) ==> post is Elder,
        id.section_key == key && signed == agreed_signed(key, g1) && (agg2 is Some ==> agg2 == Some(g2)) ==> {
            &&& emits_agreed(o, key, g1, g2)
            &&& on_genesis_track(post, key, g1)
        },
{
    lemma_prefixed(o, id, q, rk, key, g1, g2);
    if post is Elder {
        lemma_seeded(o.drop_first(), id, q, rk, key, g1, g2);
    } else {
        assert(o.len() == 1);
    }
}

/// A node that opened round one: as for round two, which a completed
/// round one opens at once.
proof fn lemma_round_one_shape(
    post: Stage,
    o: Seq<Operation>,
    id: ElderIdentity,
    credit: Credit,
    incoming: Option<SignatureShare>,
    s: SigningResults,
    q: Seq<ElderDuty>,
    rk: [u8; 48],
    key: [u8; 48],
    g1: [u8; 96],
    g2: [u8; 96],
)
    requires
        round_one_opened(post, o, id, credit, incoming, s, q, rk),
    ensures
        post is Elder ==> ends_with_replay(o, id, q, rk),
        produces_genesis(o) ==> post is Elder,
        id.section_key == key && credit == credit_for_key(key) && (s.aggregate is Some ==> s.aggregate == Some(g1))
            && (s.aggregate_signed is Some ==> s.aggregate_signed == Some(g2)) ==> {
            &&& emits_agreed(o, key, g1, g2)
            &&& on_genesis_track(post, key, g1)
        },
{
    lemma_prefixed(o, id, q, rk, key, g1, g2);
    if opening_signers(id, incoming).len() > id.threshold {
        lemma_round_two_shape(
            post,
            o.drop_first(),
            id,
            SignedCredit { credit, signature: s.aggregate->0 },
            None,
            s.own_signed_share->0,
            s.aggregate_signed,
            q,
            rk,
            key,
            g1,
            g2,
        );
    } else {
        assert(o.len() == 1);
    }
}

/// Whatever order the shares of both rounds arrive in, each step of a
/// genesis elder among honest peers keeps it on the agreed artifacts: its
/// genesis messages carry the one genesis credit and the one signed credit,
/// and a genesis proof it hands to its ledger is the agreed proof. It hands
/// one over only in the step that makes it an elder, and an elder stays
/// one, so it does so at most once.
pub proof fn lemma_genesis_agreement(
    pre: NodeDuties,
    post: NodeDuties,
    d: NodeDuty,
    s: SigningResults,
    r: Result<Vec<Operation>, Error>,
    key: [u8; 48],
    g1: [u8; 96],
    g2: [u8; 96],
)
    requires
        pre.wf(),
        on_genesis_track(pre.stage, key, g1),
        honest_event(d, s, key, g1, g2),
        node_duty_outcome(pre, post, d, s, r),
    ensures
        on_genesis_track(post.stage, key, g1),
        r matches Ok(ops) ==> emits_agreed(ops@, key, g1, g2),
        r matches Ok(ops) && produces_genesis(ops@) ==> !(pre.stage is Elder) && post.stage is Elder,
        pre.stage is Elder ==> post.stage == pre.stage,
{
    lemma_steps(pre, post, d, s, r, key, g1, g2);
}

/// Duties held back on the way to elder survive every lifecycle step in
/// arrival order; the step that makes the node an elder replays them in
/// that order, after the ledger seed and before the two reward
/// registrations.
pub proof fn lemma_queue_replay(
    pre: NodeDuties,
    post: NodeDuties,
    d: NodeDuty,
    s: SigningResults,
    r: Result<Vec<Operation>, Error>,
)
    requires
        pre.wf(),
        is_transitional(pre.stage),
        node_duty_outcome(pre, post, d, s, r),
    ensures
        is_transitional(post.stage) || post.stage is Elder,
        is_transitional(post.stage) ==> queue_of(post.stage) == queue_of(pre.stage),
        post.stage matches Stage::Elder(id) ==> (r matches Ok(ops) && ends_with_replay(
            ops@,
            id,
            queue_of(pre.stage),
            pre.node_info.reward_key,
        )),
{
    lemma_steps(pre, post, d, s, r, pre.node_info.reward_key, arbitrary(), arbitrary());
}

/// The shapes of the operations of one lifecycle step, by event and stage.
proof fn lemma_steps(
    pre: NodeDuties,
    post: NodeDuties,
    d: NodeDuty,
    s: SigningResults,
    r: Result<Vec<Operation>, Error>,
    key: [u8; 48],
    g1: [u8; 96],
    g2: [u8; 96],
)
    requires
        pre.wf(),
        node_duty_outcome(pre, post, d, s, r),
    ensures
        on_genesis_track(pre.stage, key, g1) && honest_event(d, s, key, g1, g2) ==> {
            &&& on_genesis_track(post.stage, key, g1)
            &&& r matches Ok(ops) ==> emits_agreed(ops@, key, g1, g2)
        },
        r matches Ok(ops) && produces_genesis(ops@) ==> !(pre.stage is Elder) && post.stage is Elder,
        pre.stage is Elder ==> post.stage == pre.stage,
        is_transitional(pre.stage) ==> is_transitional(post.stage) || post.stage is Elder,
        is_transitional(pre.stage) && is_transitional(post.stage) ==> queue_of(post.stage) == queue_of(pre.stage),
        is_transitional(pre.stage) ==> (post.stage matches Stage::Elder(id) ==> (r matches Ok(ops) && ends_with_replay(
            ops@,
            id,
            queue_of(pre.stage),
            pre.node_info.reward_key,
        ))),
{
    let rk = pre.node_info.reward_key;
    if let Ok(ops) = r {
        let o = ops@;
        match d {
            NodeDuty::AssumeElderDuties(k) => {
                if pre.is_originator(k) && valid_identity(k.identity) && !(pre.stage is Infant) {
                    lemma_round_one_shape(post.stage, o, k.identity, genesis_credit(k.identity), None, s, Seq::empty(), rk, key, g1, g2);
                }
            },
            NodeDuty::ReceiveGenesisProposal { credit, sig } => match pre.stage {
                Stage::Genesis(GenesisStage::AwaitingGenesisThreshold(id, q)) => {
                    lemma_round_one_shape(post.stage, o, id, credit, Some(sig), s, q@, rk, key, g1, g2);
                },
                Stage::Genesis(GenesisStage::ProposingGenesis(round)) => {
                    if round.signers().insert(sig.index).len() > round.identity.threshold {
                        lemma_round_two_shape(
                            post.stage,
                            o,
                            round.identity,
                            SignedCredit { credit: round.artifact, signature: s.aggregate->0 },
                            None,
                            s.own_signed_share->0,
                            s.aggregate_signed,
                            round.queued_ops@,
                            rk,
                            key,
                            g1,
                            g2,
                        );
                    }
                },
                _ => {},
            },
            NodeDuty::ReceiveGenesisAccumulation { signed_credit, sig } => match pre.stage {
                Stage::Genesis(GenesisStage::ProposingGenesis(round)) => {
                    lemma_round_two_shape(
                        post.stage,
                        o,
                        round.identity,
                        signed_credit,
                        Some(sig),
                        s.own_signed_share->0,
                        s.aggregate_signed,
                        round.queued_ops@,
                        rk,
                        key,
                        g1,
                        g2,
                    );
                },
                Stage::Genesis(GenesisStage::AccumulatingGenesis(round)) => {
                    if post.stage is Elder {
                        lemma_seeded(o, round.identity, round.queued_ops@, rk, key, g1, g2);
                    }
                },
                _ => {},
            },
            NodeDuty::InitSectionWallet { wallet, genesis_knowledge } => {
                if let Stage::Elder(id) = post.stage {
                    if !(pre.stage is Elder) {
                        let q = queue_of(pre.stage);
                        assert(o.drop_first() =~= tail_ops(id, q, rk));
                        lemma_seeded(o, id, q, rk, key, g1, g2);
                    }
                }
            },
            _ => {},
        }
    }
}

} // verus!
