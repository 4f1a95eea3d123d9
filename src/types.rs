use vstd::prelude::*;

verus! {

/// Numeric identifier of an actor.
pub type ActorID = u64;

/// A discrete unit of chain time.
pub type ChainEpoch = i64;

/// Identifier of an allocation; claims reuse the id of the allocation they came from.
pub type AllocationID = u64;

/// Identifier of a claim.
pub type ClaimID = u64;

/// Smallest piece size, in bytes, that an allocation may commit.
pub const MINIMUM_VERIFIED_ALLOCATION_SIZE: u64 = 1048576;

/// Shortest term, in epochs, that an allocation may ask for (180 days).
pub const MINIMUM_VERIFIED_ALLOCATION_TERM: i64 = 518400;

/// Longest term, in epochs, that an allocation may ask for (five years).
pub const MAXIMUM_VERIFIED_ALLOCATION_TERM: i64 = 5256000;

/// Furthest ahead, in epochs, that an allocation's claim deadline may lie (60 days).
pub const MAXIMUM_VERIFIED_ALLOCATION_EXPIRATION: i64 = 172800;

/// Largest value that any bound of a policy may take; keeps epoch arithmetic in range.
pub const POLICY_BOUND_LIMIT: i64 = 1099511627776;

/// Token units that the datacap ledger counts for one unit of allowance.
pub const TOKEN_PRECISION: u128 = 1000000000000000000;

/// The ledger's token amount for `units` of allowance, if it fits in 128 bits.
pub fn tokens_of(units: u128) -> (r: Option<u128>)
    ensures
        r is Some <==> units * TOKEN_PRECISION <= u128::MAX,
        r is Some ==> r->0 == units * TOKEN_PRECISION,
{
    units.checked_mul(TOKEN_PRECISION)
}

/// The numeric bounds that allocations and claims are held to.
#[derive(PartialEq, Eq, Structural, Clone, Copy, Debug)]
pub struct Policy {
    pub minimum_allocation_size: u64,
    pub minimum_allocation_term: i64,
    pub maximum_allocation_term: i64,
    pub maximum_allocation_expiration: i64,
}

impl Policy {
    /// The bounds are positive, ordered, and small enough that adding one to an epoch stays in range.
    pub open spec fn wf(&self) -> bool {
        &&& 0 < self.minimum_allocation_size
        &&& 0 < self.minimum_allocation_term
        &&& self.minimum_allocation_term <= self.maximum_allocation_term
        &&& self.maximum_allocation_term <= POLICY_BOUND_LIMIT
        &&& 0 <= self.maximum_allocation_expiration
        &&& self.maximum_allocation_expiration <= POLICY_BOUND_LIMIT
    }

    /// The network's standard bounds.
    pub fn standard() -> (r: Policy)
        ensures
            r.wf(),
            r.minimum_allocation_size == MINIMUM_VERIFIED_ALLOCATION_SIZE,
            r.minimum_allocation_term == MINIMUM_VERIFIED_ALLOCATION_TERM,
            r.maximum_allocation_term == MAXIMUM_VERIFIED_ALLOCATION_TERM,
            r.maximum_allocation_expiration == MAXIMUM_VERIFIED_ALLOCATION_EXPIRATION,
    {
        Policy {
            minimum_allocation_size: MINIMUM_VERIFIED_ALLOCATION_SIZE,
            minimum_allocation_term: MINIMUM_VERIFIED_ALLOCATION_TERM,
            maximum_allocation_term: MAXIMUM_VERIFIED_ALLOCATION_TERM,
            maximum_allocation_expiration: MAXIMUM_VERIFIED_ALLOCATION_EXPIRATION,
        }
    }

    /// Bounds chosen by the caller; `None` unless they are well formed.
    pub fn new(
        minimum_allocation_size: u64,
        minimum_allocation_term: i64,
        maximum_allocation_term: i64,
        maximum_allocation_expiration: i64,
    ) -> (r: Option<Policy>)
        ensures
            r is Some <==> (Policy {
                minimum_allocation_size,
                minimum_allocation_term,
                maximum_allocation_term,
                maximum_allocation_expiration,
            }).wf(),
            r is Some ==> r->0 == (Policy {
                minimum_allocation_size,
                minimum_allocation_term,
                maximum_allocation_term,
                maximum_allocation_expiration,
            }),
    {
        let p = Policy {
            minimum_allocation_size,
            minimum_allocation_term,
            maximum_allocation_term,
            maximum_allocation_expiration,
        };
        if 0 < minimum_allocation_size && 0 < minimum_allocation_term
            && minimum_allocation_term <= maximum_allocation_term
            && maximum_allocation_term <= POLICY_BOUND_LIMIT && 0 <= maximum_allocation_expiration
            && maximum_allocation_expiration <= POLICY_BOUND_LIMIT {
            Some(p)
        } else {
            None
        }
    }
}

/// Copies a byte string.
pub fn copy_bytes(b: &Vec<u8>) -> (r: Vec<u8>)
    ensures
        r@ == b@,
{
    let mut r: Vec<u8> = Vec::new();
    let mut i: usize = 0;
    while i < b.len()
        invariant
            i <= b@.len(),
            r@ == b@.subrange(0, i as int),
        decreases b@.len() - i,
    {
        r.push(b[i]);
        i = i + 1;
        assert(r@ =~= b@.subrange(0, i as int));
    }
    assert(r@ =~= b@);
    r
}

/// Tells whether two byte strings are equal.
pub fn bytes_equal(a: &Vec<u8>, b: &Vec<u8>) -> (r: bool)
    ensures
        r == (a@ == b@),
{
    if a.len() != b.len() {
        return false;
    }
    let mut i: usize = 0;
    while i < a.len()
        invariant
            a@.len() == b@.len(),
            i <= a@.len(),
            a@.subrange(0, i as int) == b@.subrange(0, i as int),
        decreases a@.len() - i,
    {
        if a[i] != b[i] {
            assert(a@[i as int] != b@[i as int]);
            return false;
        }
        assert(a@.subrange(0, i + 1) =~= a@.subrange(0, i as int).push(a@[i as int]));
        assert(b@.subrange(0, i + 1) =~= b@.subrange(0, i as int).push(b@[i as int]));
        i = i + 1;
    }
    assert(a@ =~= a@.subrange(0, i as int));
    assert(b@ =~= b@.subrange(0, i as int));
    true
}

/// What an allocation holds, as mathematical values.
pub struct AllocationModel {
    pub client: ActorID,
    pub provider: ActorID,
    pub data: Seq<u8>,
    pub size: u64,
    pub term_min: ChainEpoch,
    pub term_max: ChainEpoch,
    pub expiration: ChainEpoch,
}

/// A client's pending commitment of datacap, awaiting a storage proof by a provider.
#[derive(Clone)]
pub struct Allocation {
    pub client: ActorID,
    pub provider: ActorID,
    /// Content identifier of the committed data, as bytes.
    pub data: Vec<u8>,
    /// Padded piece size in bytes.
    pub size: u64,
    pub term_min: ChainEpoch,
    pub term_max: ChainEpoch,
    /// Epoch by which the allocation must be claimed.
    pub expiration: ChainEpoch,
}

impl View for Allocation {
    type V = AllocationModel;

    open spec fn view(&self) -> AllocationModel {
        AllocationModel {
            client: self.client,
            provider: self.provider,
            data: self.data@,
            size: self.size,
            term_min: self.term_min,
            term_max: self.term_max,
            expiration: self.expiration,
        }
    }
}

impl Allocation {
    /// A copy with the same contents.
    pub fn duplicate(&self) -> (r: Allocation)
        ensures
            r@ == self@,
    {
        Allocation {
            client: self.client,
            provider: self.provider,
            data: copy_bytes(&self.data),
            size: self.size,
            term_min: self.term_min,
            term_max: self.term_max,
            expiration: self.expiration,
        }
    }
}

/// What a claim holds, as mathematical values.
pub struct ClaimModel {
    pub provider: ActorID,
    pub client: ActorID,
    pub data: Seq<u8>,
    pub size: u64,
    pub term_min: ChainEpoch,
    pub term_max: ChainEpoch,
    pub term_start: ChainEpoch,
    pub sector: u64,
}

/// A proven storage commitment, made from a claimed allocation.
#[derive(Clone)]
pub struct Claim {
    pub provider: ActorID,
    pub client: ActorID,
    /// Content identifier of the stored data, as bytes.
    pub data: Vec<u8>,
    pub size: u64,
    pub term_min: ChainEpoch,
    pub term_max: ChainEpoch,
    /// Epoch at which the proof was accepted.
    pub term_start: ChainEpoch,
    /// Sector that holds the data.
    pub sector: u64,
}

impl View for Claim {
    type V = ClaimModel;

    open spec fn view(&self) -> ClaimModel {
        ClaimModel {
            provider: self.provider,
            client: self.client,
            data: self.data@,
            size: self.size,
            term_min: self.term_min,
            term_max: self.term_max,
            term_start: self.term_start,
            sector: self.sector,
        }
    }
}

impl Claim {
    /// A copy with the same contents.
    pub fn duplicate(&self) -> (r: Claim)
        ensures
            r@ == self@,
    {
        Claim {
            provider: self.provider,
            client: self.client,
            data: copy_bytes(&self.data),
            size: self.size,
            term_min: self.term_min,
            term_max: self.term_max,
            term_start: self.term_start,
            sector: self.sector,
        }
    }
}

} // verus!
