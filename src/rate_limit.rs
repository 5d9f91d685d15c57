use vstd::arithmetic::power2::{lemma2_to64_rest, lemma_pow2_strictly_increases, pow2};
use vstd::bits::lemma_u64_shr_is_div;
use vstd::prelude::*;

verus! {

/// Largest size of a single chunk, in bytes.
pub const MAX_CHUNK_SIZE: u64 = 1_000_000;

/// The network's whole currency supply, in nanos: `u32::MAX` tokens.
pub const MAX_SUPPLY: u64 = 4_294_967_295_000_000_000;

/// Share of the supply a section is answerable for at a prefix of `prefix_len` bits.
pub open spec fn section_nanos(prefix_len: nat) -> nat {
    MAX_SUPPLY as nat / pow2(prefix_len)
}

/// The section's record of adults that reported full storage.
pub struct Capacity {
    full: Vec<u64>,
}

impl Capacity {
    /// The ids of the full adults, each once.
    pub closed spec fn full_set(&self) -> Set<u64> {
        self.full@.to_set()
    }

    pub closed spec fn wf(&self) -> bool {
        self.full@.no_duplicates()
    }

    pub closed spec fn count(&self) -> nat {
        self.full@.len()
    }

    pub fn new() -> (r: Capacity)
        ensures
            r.wf(),
            r.full_set() == Set::<u64>::empty(),
            r.count() == 0,
    {
        let r = Capacity { full: Vec::new() };
        proof {
            assert(r.full@.to_set() =~= Set::<u64>::empty());
        }
        r
    }

    /// Number of adults that are full.
    pub fn full_nodes(&self) -> (r: u64)
        ensures
            r == self.count(),
    {
        self.full.len() as u64
    }

    /// Records that the adult `node_id` is full; an adult already recorded counts once.
    pub fn increase_full_node_count(&mut self, node_id: u64)
        requires
            old(self).wf(),
            old(self).count() < u64::MAX,
        ensures
            final(self).wf(),
            final(self).full_set() == old(self).full_set().insert(node_id),
            final(self).count() == if old(self).full_set().contains(node_id) {
                old(self).count()
            } else {
                old(self).count() + 1
            },
    {
        let mut i: usize = 0;
        while i < self.full.len()
            invariant
                0 <= i <= self.full@.len(),
                self.full@ == old(self).full@,
                self.full@.no_duplicates(),
                forall|j: int| 0 <= j < i ==> self.full@[j] != node_id,
            decreases self.full@.len() - i,
        {
            if self.full[i] == node_id {
                proof {
                    assert(self.full@.to_set().contains(node_id));
                    assert(self.full@.to_set().insert(node_id) =~= self.full@.to_set());
                }
                return;
            }
            i = i + 1;
        }
        proof {
            assert(!self.full@.to_set().contains(node_id));
        }
        let ghost before = self.full@;
        self.full.push(node_id);
        proof {
            assert(self.full@ == before.push(node_id));
            assert(self.full@.to_set() =~= before.to_set().insert(node_id)) by {
                assert forall|x: u64| #[trigger] self.full@.to_set().contains(x) <==> before.to_set().insert(node_id).contains(x) by {
                    if x != node_id && self.full@.contains(x) {
                        let k = choose|k: int| 0 <= k < self.full@.len() && self.full@[k] == x;
                        assert(before[k] == x);
                    }
                    if before.contains(x) {
                        let k = choose|k: int| 0 <= k < before.len() && before[k] == x;
                        assert(self.full@[k] == x);
                    }
                    if x == node_id {
                        assert(self.full@[before.len() as int] == x);
                    }
                }
            }
        }
    }
}

/// What the section's store cost is computed from: its prefix length and
/// which of its adults are full.
pub struct RateLimit {
    pub prefix_len: u64,
    pub capacity: Capacity,
}

impl RateLimit {
    pub fn new(prefix_len: u64, capacity: Capacity) -> (r: RateLimit)
        ensures
            r.prefix_len == prefix_len,
            r.capacity == capacity,
    {
        RateLimit { prefix_len, capacity }
    }

    pub fn increase_full_node_count(&mut self, node_id: u64)
        requires
            old(self).capacity.wf(),
            old(self).capacity.count() < u64::MAX,
        ensures
            final(self).prefix_len == old(self).prefix_len,
            final(self).capacity.wf(),
            final(self).capacity.full_set() == old(self).capacity.full_set().insert(node_id),
            final(self).capacity.count() == if old(self).capacity.full_set().contains(node_id) {
                old(self).capacity.count()
            } else {
                old(self).capacity.count() + 1
            },
    {
        self.capacity.increase_full_node_count(node_id);
    }

    /// Whether more than half of the section's `all_nodes` adults are full.
    pub fn check_network_storage(&self, all_nodes: u64) -> (r: bool)
        ensures
            r == (2 * self.capacity.count() > all_nodes as nat),
    {
        let full = self.capacity.full_nodes();
        full as u128 * 2 > all_nodes as u128
    }

    /// The supply a section at a prefix of `prefix_len` bits answers for:
    /// the whole supply halved once per bit, rounded down.
    pub fn max_section_nanos(prefix_len: u64) -> (r: u64)
        ensures
            r as nat == section_nanos(prefix_len as nat),
    {
        if prefix_len >= 64 {
            proof {
                lemma2_to64_rest();
                if prefix_len > 64 {
                    lemma_pow2_strictly_increases(64, prefix_len as nat);
                }
                assert(MAX_SUPPLY as nat / pow2(prefix_len as nat) == 0) by (nonlinear_arith)
                    requires
                        pow2(prefix_len as nat) >= 0x10000000000000000,
                        MAX_SUPPLY < 0x10000000000000000,
                ;
            }
            0
        } else {
            proof {
                lemma_u64_shr_is_div(MAX_SUPPLY, prefix_len);
            }
            MAX_SUPPLY >> prefix_len
        }
    }
}

} // verus!
