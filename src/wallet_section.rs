use crate::rate_limit::RateLimit;
use crate::types::{ElderIdentity, Error};
use vstd::prelude::*;

verus! {

/// Where a transfer replica stands within its section's signing group.
#[derive(Clone, Copy, Debug)]
pub struct ReplicaInfo {
    pub key_index: u64,
    pub threshold: u64,
    pub group_size: u64,
    pub section_key: [u8; 48],
    /// The replica is new and still has to catch up with its peers.
    pub initiating: bool,
}

/// The replica that an elder with identity `id` runs.
pub open spec fn replica_of(id: ElderIdentity, initiating: bool) -> ReplicaInfo {
    ReplicaInfo {
        key_index: id.share_index,
        threshold: id.threshold,
        group_size: id.group_size,
        section_key: id.section_key,
        initiating,
    }
}

/// The section's transfer bookkeeping: its replica and its store cost.
pub struct Transfers {
    pub replica: ReplicaInfo,
    pub rate_limit: RateLimit,
}

/// The wallet section of an elder: set up on promotion, enabled once the
/// node is an elder.
pub enum WalletSection {
    PreElder { transfers: Transfers, elder_state: ElderIdentity },
    Elder { transfers: Transfers, elder_state: ElderIdentity },
}

impl WalletSection {
    pub open spec fn spec_transfers(&self) -> &Transfers {
        match self {
            WalletSection::PreElder { transfers, .. } => transfers,
            WalletSection::Elder { transfers, .. } => transfers,
        }
    }

    pub open spec fn spec_elder_state(&self) -> ElderIdentity {
        match self {
            WalletSection::PreElder { elder_state, .. } => *elder_state,
            WalletSection::Elder { elder_state, .. } => *elder_state,
        }
    }

    fn transfer_replicas(elder_state: ElderIdentity, initiating: bool) -> (r: ReplicaInfo)
        ensures
            r == replica_of(elder_state, initiating),
    {
        ReplicaInfo {
            key_index: elder_state.share_index,
            threshold: elder_state.threshold,
            group_size: elder_state.group_size,
            section_key: elder_state.section_key,
            initiating,
        }
    }

    /// A wallet section not yet enabled, whose replica still has to catch up.
    pub fn pre_elder(rate_limit: RateLimit, elder_state: ElderIdentity) -> (r: WalletSection)
        ensures
            r matches WalletSection::PreElder { transfers, elder_state: e } && e == elder_state
                && transfers.replica == replica_of(elder_state, true) && transfers.rate_limit == rate_limit,
    {
        let replica = Self::transfer_replicas(elder_state, true);
        WalletSection::PreElder { transfers: Transfers { replica, rate_limit }, elder_state }
    }

    /// Enables a section set up on promotion; enabling twice is refused.
    pub fn enable(self) -> (r: Result<WalletSection, Error>)
        ensures
            match self {
                WalletSection::PreElder { transfers, elder_state } => r == Ok::<WalletSection, Error>(
                    WalletSection::Elder { transfers, elder_state },
                ),
                WalletSection::Elder { .. } => r == Err::<WalletSection, Error>(Error::InvalidOperation),
            },
    {
        match self {
            WalletSection::PreElder { transfers, elder_state } => Ok(WalletSection::Elder { transfers, elder_state }),
            WalletSection::Elder { .. } => Err(Error::InvalidOperation),
        }
    }

    pub fn transfers(&self) -> (r: &Transfers)
        ensures
            r == self.spec_transfers(),
    {
        match self {
            WalletSection::PreElder { transfers, .. } => transfers,
            WalletSection::Elder { transfers, .. } => transfers,
        }
    }

    /// Records that the adult `node_id` is full, for the section's store cost.
    pub fn increase_full_node_count(&mut self, node_id: u64)
        requires
            old(self).spec_transfers().rate_limit.capacity.wf(),
            old(self).spec_transfers().rate_limit.capacity.count() < u64::MAX,
        ensures
            final(self).spec_transfers().replica == old(self).spec_transfers().replica,
            final(self).spec_transfers().rate_limit.prefix_len == old(self).spec_transfers().rate_limit.prefix_len,
            final(self).spec_transfers().rate_limit.capacity.wf(),
            final(self).spec_transfers().rate_limit.capacity.full_set()
                == old(self).spec_transfers().rate_limit.capacity.full_set().insert(node_id),
            final(self).spec_elder_state() == old(self).spec_elder_state(),
            (*final(self) is Elder) == (*old(self) is Elder),
    {
        match self {
            WalletSection::PreElder { transfers, .. } => transfers.rate_limit.increase_full_node_count(node_id),
            WalletSection::Elder { transfers, .. } => transfers.rate_limit.increase_full_node_count(node_id),
        }
    }

    /// Points the replica at the section's new elder keys, and takes the
    /// new store-cost basis.
    pub fn elders_changed(&mut self, elder_state: ElderIdentity, rate_limit: RateLimit)
        ensures
            final(self).spec_transfers().replica == replica_of(elder_state, false),
            final(self).spec_transfers().rate_limit == rate_limit,
            final(self).spec_elder_state() == old(self).spec_elder_state(),
            (*final(self) is Elder) == (*old(self) is Elder),
    {
        let replica = Self::transfer_replicas(elder_state, false);
        match self {
            WalletSection::PreElder { transfers, .. } => {
                transfers.replica = replica;
                transfers.rate_limit = rate_limit;
            },
            WalletSection::Elder { transfers, .. } => {
                transfers.replica = replica;
                transfers.rate_limit = rate_limit;
            },
        }
    }
}

} // verus!
