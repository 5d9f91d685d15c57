use crate::types::{ElderDuty, ElderIdentity, Error, SignatureShare};
use vstd::prelude::*;
use vstd::set_lib::{lemma_int_range, lemma_len_subset, lemma_map_size, set_int_range};

verus! {

/// One round of threshold signing over `artifact`: the shares collected so
/// far, keyed by signer index, and the group signature once more than
/// `threshold` signers have contributed.
pub struct GenesisRound<A> {
    pub identity: ElderIdentity,
    pub artifact: A,
    pub signatures: Vec<SignatureShare>,
    pub pending_agreement: Option<[u8; 96]>,
    pub queued_ops: Vec<ElderDuty>,
}

pub open spec fn share_index(s: SignatureShare) -> u64 {
    s.index
}

/// `new` is `old` with `sig` recorded: the share replaces any earlier one of
/// its signer, and once the signers outnumber the threshold the round holds
/// `aggregate` as its group signature, for good.
pub open spec fn added<A>(old: GenesisRound<A>, new: GenesisRound<A>, sig: SignatureShare, aggregate: Option<[u8; 96]>) -> bool {
    &&& new.wf()
    &&& new.identity == old.identity
    &&& new.artifact == old.artifact
    &&& new.queued_ops == old.queued_ops
    &&& new.signers() == old.signers().insert(sig.index)
    &&& new.signer_count() == new.signers().len()
    &&& new.signer_count() == if old.signers().contains(sig.index) {
        old.signer_count()
    } else {
        old.signer_count() + 1
    }
    &&& new.recorded().contains(sig)
    &&& forall|x: SignatureShare|
        #[trigger] new.recorded().contains(x) <==> (x == sig || (old.recorded().contains(x) && x.index != sig.index))
    &&& new.aggregate() == if old.aggregate() is Some {
        old.aggregate()
    } else if new.signer_count() > old.identity.threshold {
        aggregate
    } else {
        None
    }
}


impl<A> GenesisRound<A> {
    pub fn has_signer(&self, index: u64) -> (r: bool)
        ensures
            r == self.signers().contains(index),
    {
        let n = self.signatures.len();
        let mut i: usize = 0;
        while i < n && self.signatures[i].index != index
            invariant
                n == self.signatures@.len(),
                0 <= i <= n,
                forall|j: int| 0 <= j < i ==> self.signatures@[j].index != index,
            decreases n - i,
        {
            i = i + 1;
        }
        proof {
            if i < n {
                assert(self.indices()[i as int] == index);
            } else {
                assert forall|j: int| 0 <= j < self.indices().len() implies self.indices()[j] != index by {
                    assert(self.indices()[j] == self.signatures@[j].index);
                }
            }
        }
        i < n
    }

    /// Whether a share of signer `index` would bring the signers above the threshold.
    pub fn reaches_threshold_with(&self, index: u64) -> (r: bool)
        requires
            self.wf(),
        ensures
            r == (self.signers().insert(index).len() > self.identity.threshold),
    {
        proof {
            self.indices().unique_seq_to_set();
        }
        let n = self.signatures.len();
        if self.has_signer(index) {
            proof {
                assert(self.signers().insert(index) =~= self.signers());
            }
            n as u64 > self.identity.threshold
        } else {
            proof {
                assert(self.signers().insert(index).len() == self.signers().len() + 1);
            }
            n as u64 >= self.identity.threshold
        }
    }

    /// The recorded shares, one per signer.
    pub open spec fn recorded(&self) -> Seq<SignatureShare> {
        self.signatures@
    }

    pub open spec fn indices(&self) -> Seq<u64> {
        self.recorded().map_values(|s: SignatureShare| share_index(s))
    }

    /// Indices of the signers whose shares are recorded.
    pub open spec fn signers(&self) -> Set<u64> {
        self.indices().to_set()
    }

    pub open spec fn signer_count(&self) -> nat {
        self.recorded().len()
    }

    /// The group signature, once the round has reached its threshold.
    pub open spec fn aggregate(&self) -> Option<[u8; 96]> {
        self.pending_agreement
    }

    pub open spec fn wf(&self) -> bool {
        &&& self.indices().no_duplicates()
        &&& forall|k: int|
            0 <= k < self.recorded().len() ==> #[trigger] self.recorded()[k].index
                < self.identity.group_size
        &&& (self.aggregate() is Some <==> self.signer_count() > self.identity.threshold)
    }

    /// A round with no shares yet.
    pub fn new(identity: ElderIdentity, artifact: A, queued_ops: Vec<ElderDuty>) -> (r: Self)
        ensures
            r.wf(),
            r.identity == identity,
            r.artifact == artifact,
            r.queued_ops == queued_ops,
            r.recorded() == Seq::<SignatureShare>::empty(),
            r.signers() == Set::<u64>::empty(),
            r.aggregate() is None,
    {
        let r = GenesisRound {
            identity,
            artifact,
            signatures: Vec::new(),
            pending_agreement: None,
            queued_ops,
        };
        proof {
            assert(r.indices() =~= Seq::<u64>::empty());
            assert(r.signers() =~= Set::<u64>::empty());
        }
        r
    }

    pub fn aggregate_signature(&self) -> (r: Option<[u8; 96]>)
        ensures
            r == self.aggregate(),
    {
        self.pending_agreement
    }

    pub fn signature_count(&self) -> (r: usize)
        ensures
            r == self.signer_count(),
    {
        self.signatures.len()
    }

    /// The recorded shares followed by `sig`: what the signing collaborator
    /// combines when `sig` completes the round.
    pub fn shares_with(&self, sig: SignatureShare) -> (r: Vec<SignatureShare>)
        ensures
            r@ == self.recorded().push(sig),
    {
        let mut r: Vec<SignatureShare> = Vec::new();
        let n = self.signatures.len();
        let mut i: usize = 0;
        while i < n
            invariant
                n == self.signatures@.len(),
                0 <= i <= n,
                r@ == self.signatures@.subrange(0, i as int),
            decreases n - i,
        {
            r.push(self.signatures[i]);
            i = i + 1;
            proof {
                assert(r@ =~= self.signatures@.subrange(0, i as int));
            }
        }
        r.push(sig);
        proof {
            assert(self.signatures@.subrange(0, n as int) =~= self.signatures@);
        }
        r
    }

    /// The recorded shares, for the collaborator that combines them.
    pub fn shares(&self) -> (r: &Vec<SignatureShare>)
        ensures
            r@ == self.recorded(),
    {
        &self.signatures
    }

    /// Records `sig`, replacing an earlier share of the same signer. When
    /// the recorded signers first outnumber the threshold, `aggregate`,
    /// the combination of the shares, becomes the round's group signature.
    /// A failed call leaves the round as it was.
    pub fn add(&mut self, sig: SignatureShare, aggregate: Option<[u8; 96]>) -> (r: Result<(), Error>)
        requires
            old(self).wf(),
        ensures
            r is Err ==> *final(self) == *old(self),
            (r matches Err(Error::InvalidShare)) <==> sig.index >= old(self).identity.group_size,
            (r matches Err(Error::Collaborator)) <==> {
                &&& sig.index < old(self).identity.group_size
                &&& old(self).aggregate() is None
                &&& old(self).signers().insert(sig.index).len() > old(self).identity.threshold
                &&& aggregate is None
            },
            r is Err ==> (r matches Err(Error::InvalidShare)) || (r matches Err(Error::Collaborator)),
            r is Ok ==> added(*old(self), *final(self), sig, aggregate),
    {
        proof {
            self.indices().unique_seq_to_set();
        }
        if sig.index >= self.identity.group_size {
            return Err(Error::InvalidShare);
        }
        let n = self.signatures.len();
        let mut i: usize = 0;
        while i < n && self.signatures[i].index != sig.index
            invariant
                n == self.signatures@.len(),
                0 <= i <= n,
                self == old(self),
                forall|j: int| 0 <= j < i ==> self.signatures@[j].index != sig.index,
            decreases n - i,
        {
            i = i + 1;
        }
        let ghost old_idx = self.indices();
        proof {
            if i == n {
                assert forall|j: int| 0 <= j < old_idx.len() implies old_idx[j] != sig.index by {
                    assert(old_idx[j] == self.signatures@[j].index);
                }
                assert(!old_idx.contains(sig.index));
            } else {
                assert(old_idx[i as int] == sig.index);
            }
        }
        let reaches = if i == n {
            n as u64 >= self.identity.threshold
        } else {
            n as u64 > self.identity.threshold
        };
        let crossing = self.pending_agreement.is_none() && reaches;
        let ghost new_set = old_idx.to_set().insert(sig.index);
        proof {
            if i < n {
                assert(old_idx.to_set().contains(sig.index));
                assert(new_set =~= old_idx.to_set());
            } else {
                old_idx.push(sig.index).unique_seq_to_set();
                assert(old_idx.push(sig.index).no_duplicates());
                assert(old_idx.push(sig.index).to_set() =~= new_set) by {
                    old_idx.lemma_push_to_set_commute(sig.index);
                }
            }
        }
        if crossing {
            match aggregate {
                None => {
                    return Err(Error::Collaborator);
                },
                Some(a) => {
                    self.pending_agreement = Some(a);
                },
            }
        }
        let ghost before = self.signatures@;
        if i == n {
            self.signatures.push(sig);
            proof {
                assert(self.indices() =~= old_idx.push(sig.index));
                assert(self.signatures@[n as int] == sig);
            }
        } else {
            self.signatures.set(i, sig);
            proof {
                assert(self.indices() =~= old_idx);
                assert(self.signatures@[i as int] == sig);
            }
        }
        proof {
            assert forall|x: SignatureShare|
                #[trigger] self.recorded().contains(x) <==> (x == sig || (before.contains(x) && x.index != sig.index)) by {
                if self.recorded().contains(x) {
                    let k = choose|k: int| 0 <= k < self.recorded().len() && self.recorded()[k] == x;
                    if k != i {
                        assert(before[k] == x);
                        if x.index == sig.index {
                            assert(old_idx[k] == x.index);
                            if i < n {
                                assert(old_idx[i as int] == sig.index);
                            } else {
                                assert(old_idx.contains(sig.index));
                            }
                        }
                    }
                }
                if before.contains(x) && x.index != sig.index {
                    let k = choose|k: int| 0 <= k < before.len() && before[k] == x;
                    if i < n {
                        assert(old_idx[i as int] == sig.index);
                        assert(k != i);
                    }
                    assert(self.recorded()[k] == x);
                }
                if x == sig {
                    assert(self.recorded()[i as int] == sig);
                }
            }
            self.indices().unique_seq_to_set();
            assert forall|k: int| 0 <= k < self.recorded().len() implies #[trigger] self.recorded()[k].index
                < self.identity.group_size by {
                if k != i {
                    assert(self.recorded()[k] == before[k]);
                }
            }
        }
        Ok(())
    }

    /// Whether the round is well formed: one share per signer, every signer
    /// within the group, and a group signature exactly when the signers
    /// outnumber the threshold.
    pub fn is_well_formed(&self) -> (r: bool)
        ensures
            r == self.wf(),
    {
        let n = self.signatures.len();
        let mut i: usize = 0;
        while i < n
            invariant
                n == self.signatures@.len(),
                0 <= i <= n,
                forall|a: int, b: int| 0 <= a < b < i ==> self.indices()[a] != self.indices()[b],
                forall|k: int| 0 <= k < i ==> #[trigger] self.recorded()[k].index < self.identity.group_size,
            decreases n - i,
        {
            if self.signatures[i].index >= self.identity.group_size {
                return false;
            }
            let mut j: usize = 0;
            while j < i
                invariant
                    n == self.signatures@.len(),
                    0 <= j <= i < n,
                    forall|a: int| 0 <= a < j ==> self.indices()[a] != self.indices()[i as int],
                decreases i - j,
            {
                if self.signatures[j].index == self.signatures[i].index {
                    proof {
                        assert(self.indices()[j as int] == self.indices()[i as int]);
                    }
                    return false;
                }
                j = j + 1;
            }
            i = i + 1;
        }
        let over = n as u64 > self.identity.threshold;
        self.pending_agreement.is_some() == over
    }

    /// Holds `duty` back until the round's stage finalizes.
    pub fn enqueue(&mut self, duty: ElderDuty)
        ensures
            final(self).queued_ops@ == old(self).queued_ops@.push(duty),
            final(self).identity == old(self).identity,
            final(self).artifact == old(self).artifact,
            final(self).recorded() == old(self).recorded(),
            final(self).aggregate() == old(self).aggregate(),
    {
        self.queued_ops.push(duty);
    }
}

/// A round never holds more shares than its group has key shares.
pub proof fn lemma_round_within_group<A>(round: GenesisRound<A>)
    requires
        round.wf(),
    ensures
        round.signer_count() <= round.identity.group_size,
{
    let n = round.identity.group_size as int;
    let signers = round.signers();
    let f = |i: u64| i as int;
    round.indices().unique_seq_to_set();
    let ints = signers.map(f);
    assert(vstd::relations::injective_on(f, signers));
    lemma_map_size(signers, ints, f);
    lemma_int_range(0, n);
    assert(ints.subset_of(set_int_range(0, n))) by {
        assert forall|v: int| ints.contains(v) implies set_int_range(0, n).contains(v) by {
            let i = choose|i: u64| signers.contains(i) && f(i) == v;
            let k = choose|k: int| 0 <= k < round.indices().len() && round.indices()[k] == i;
            assert(round.recorded()[k].index < round.identity.group_size);
        }
    }
    lemma_len_subset(ints, set_int_range(0, n));
}

} // verus!
