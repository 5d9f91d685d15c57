use crate::rate_limit::MAX_SUPPLY;
use vstd::prelude::*;

verus! {

/// Amount of the genesis credit, in nanos: the network's whole supply.
pub const GENESIS_AMOUNT: u64 = MAX_SUPPLY;

/// Id that the one genesis credit of a network carries.
pub const GENESIS_CREDIT_ID: u64 = 0;

/// Memo of the genesis credit: the text `genesis`, padded with zero bytes.
pub const GENESIS_MEMO: [u8; 32] = [
    103, 101, 110, 101, 115, 105, 115, 0, 0, 0, 0, 0, 0, 0, 0, 0,
    0, 0, 0, 0, 0, 0, 0, 0, 0, 0, 0, 0, 0, 0, 0, 0,
];

/// Number of elders a first section gathers before genesis is proposed.
pub const GENESIS_ELDER_COUNT: u64 = 5;

/// Longest signing-key history a section may have while genesis is open.
pub const GENESIS_CHAIN_BOUND: u64 = 5;

/// A node's role within its section's threshold signature scheme.
/// The partial signing key itself stays with the signing collaborator.
#[derive(Clone, Copy, Debug)]
pub struct ElderIdentity {
    pub node_name: [u8; 32],
    pub share_index: u64,
    /// Any `threshold + 1` shares combine into a group signature.
    pub threshold: u64,
    /// Number of key shares in the group; share indices lie below it.
    pub group_size: u64,
    pub section_key: [u8; 48],
}

/// What the network layer knows when a node is promoted, read at one time.
#[derive(Clone, Copy, Debug)]
pub struct ElderKnowledge {
    pub identity: ElderIdentity,
    /// The section's prefix is empty: it is the network's first section.
    pub first_section: bool,
    pub elder_count: u64,
    pub chain_len: u64,
}

#[derive(Clone, Copy, Debug)]
pub struct Credit {
    pub id: u64,
    pub amount: u64,
    pub recipient: [u8; 48],
    /// Human-readable text, zero-padded.
    pub memo: [u8; 32],
}

/// A credit with the aggregate signature of its section's elders.
#[derive(Clone, Copy, Debug)]
pub struct SignedCredit {
    pub credit: Credit,
    pub signature: [u8; 96],
}

/// A signed credit with a second aggregate signature over it, and the
/// group key that signed.
#[derive(Clone, Copy, Debug)]
pub struct CreditProof {
    pub signed_credit: SignedCredit,
    pub signature: [u8; 96],
    pub replicas: [u8; 48],
}

/// One signer's partial signature.
#[derive(Clone, Copy, Debug)]
pub struct SignatureShare {
    pub index: u64,
    pub share: [u8; 96],
}

/// A section-leader operation, opaque to the lifecycle.
#[derive(Debug)]
pub struct ElderDuty {
    pub kind: u64,
    pub payload: Vec<u8>,
}

/// A storage operation of an adult, opaque to the lifecycle.
#[derive(Debug)]
pub struct AdultDuty {
    pub kind: u64,
    pub payload: Vec<u8>,
}

/// The section's accounting history, which seeds its ledger.
#[derive(Debug)]
pub struct WalletInfo {
    pub replicas: [u8; 48],
    pub credits: Vec<CreditProof>,
}

/// What the signing collaborator computed for one event: whether the
/// incoming share verifies over its message; this node's share over the
/// credit and the group signature over it; this node's share over the
/// signed credit and the group signature over that.
#[derive(Clone, Copy, Debug)]
pub struct SigningResults {
    pub share_valid: bool,
    pub own_share: Option<[u8; 96]>,
    pub aggregate: Option<[u8; 96]>,
    pub own_signed_share: Option<[u8; 96]>,
    pub aggregate_signed: Option<[u8; 96]>,
}

/// Lifecycle events handed to a node.
#[derive(Debug)]
pub enum NodeDuty {
    RegisterWallet([u8; 48]),
    AssumeAdultDuties,
    AssumeElderDuties(ElderKnowledge),
    ReceiveGenesisProposal { credit: Credit, sig: SignatureShare },
    ReceiveGenesisAccumulation { signed_credit: SignedCredit, sig: SignatureShare },
    InitiateElderChange(ElderKnowledge),
    FinishElderChange { previous_key: [u8; 48], new_key: [u8; 48] },
    InitSectionWallet { wallet: WalletInfo, genesis_knowledge: Option<ElderKnowledge> },
    StorageFull,
    NoOp,
}

/// Work handed to a node: by the level that is to run it.
#[derive(Debug)]
pub enum NetworkDuty {
    RunAsAdult(AdultDuty),
    RunAsElder(ElderDuty),
    RunAsNode(NodeDuty),
    NoOp,
}

/// What a node asks of the network and of its subsystems.
#[allow(inconsistent_fields)]
#[derive(Debug)]
pub enum Operation {
    /// Broadcast a genesis credit and a share over it to the section.
    ProposeGenesis { credit: Credit, sig: SignatureShare, section_key: [u8; 48] },
    /// Broadcast a signed genesis credit and a share over it to the section.
    AccumulateGenesis { signed_credit: SignedCredit, sig: SignatureShare, section_key: [u8; 48] },
    /// Ask the section's elders for the section wallet history.
    QueryWalletHistory { section_key: [u8; 48] },
    /// Register this node's reward wallet.
    RegisterWallet { wallet: [u8; 48] },
    /// Send a wallet registration to the section, on behalf of `node`.
    SendWalletRegistration { wallet: [u8; 48], node: [u8; 32] },
    /// Tell the section this node's storage is full.
    NotifyStorageFull { node: [u8; 32] },
    /// Build the section-leader subsystem from its seed.
    InitLedger { wallet: WalletInfo, genesis: Option<CreditProof> },
    RunAdultDuty(AdultDuty),
    RunElderDuty(ElderDuty),
    /// Register a node with the reward subsystem.
    AddNewNode { node: [u8; 32] },
    /// Register a node's reward destination with the reward subsystem.
    SetNodeWallet { node: [u8; 32], wallet: [u8; 48] },
    InitiateElderChange(ElderKnowledge),
    FinishElderChange { previous_key: [u8; 48], new_key: [u8; 48] },
}

#[derive(Debug)]
pub enum Error {
    /// The event's precondition on the current stage does not hold.
    InvalidOperation,
    /// The operation needs a level the node does not hold.
    Logic,
    /// A signature share does not verify for the round it was sent to.
    InvalidShare,
    /// The signing collaborator did not supply a result the step needs.
    Collaborator,
}

/// A message whose signature shares a node checks.
#[derive(Clone, Copy, Debug)]
pub enum Payload {
    Credit(Credit),
    SignedCredit(SignedCredit),
}

/// The signed credit of round two: given, or made of a credit and the
/// group signature over it that the same request combines.
#[derive(Clone, Copy, Debug)]
pub enum SignedTarget {
    Given(SignedCredit),
    FromRoundOne(Credit),
}

/// Shares to combine into a group signature; where `own_index` is set,
/// this node's own share, of that index, joins them.
#[derive(Debug)]
pub struct Combination {
    pub shares: Vec<SignatureShare>,
    pub own_index: Option<u64>,
}

/// What the signing collaborator computes before a node handles an event:
/// whether the incoming share verifies over its message; over `credit`,
/// this node's share and the group signature of `combine_credit`; over
/// `signed`, this node's share and the group signature of `combine_signed`.
#[derive(Debug)]
pub struct SigningRequest {
    pub check: Option<(SignatureShare, Payload)>,
    pub credit: Option<Credit>,
    pub sign_credit: bool,
    pub combine_credit: Option<Combination>,
    pub signed: Option<SignedTarget>,
    pub sign_signed: bool,
    pub combine_signed: Option<Combination>,
}

} // verus!
