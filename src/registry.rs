use vstd::prelude::*;

use std::collections::HashMap;

use crate::types::{
    bytes_equal, ActorID, Allocation, AllocationID, AllocationModel, ChainEpoch, Claim, ClaimID,
    ClaimModel, Policy,
};

verus! {

broadcast use vstd::std_specs::hash::group_hash_axioms;

/// Why a call to the registry was refused as a whole.
#[derive(PartialEq, Eq, Structural, Clone, Copy, Debug)]
pub enum RegistryError {
    /// The caller may not make this call.
    Forbidden,
    /// The allowance is below the smallest allocation size.
    AllowanceBelowMinimum,
    /// A verifier to be added already holds datacap tokens.
    VerifierHoldsDatacap,
    /// The verifier has no entry.
    VerifierNotFound,
    /// The verifier's remaining allowance is below the amount granted.
    InsufficientAllowance,
    /// The sizes allocated exceed the tokens received.
    InsufficientTokens,
    /// Every item of a non-empty batch failed.
    AllItemsFailed,
    /// An item failed in a batch that was asked to succeed in whole.
    BatchItemFailed,
}

/// A client's request to commit datacap to a piece of data with a provider.
pub struct AllocationRequest {
    pub provider: ActorID,
    pub data: Vec<u8>,
    pub size: u64,
    pub term_min: ChainEpoch,
    pub term_max: ChainEpoch,
    pub expiration: ChainEpoch,
}

/// A provider's claim of one allocation, proven in a sector.
pub struct ClaimRequest {
    pub client: ActorID,
    pub allocation_id: AllocationID,
    pub data: Vec<u8>,
    pub size: u64,
    pub sector: u64,
    pub sector_expiry: ChainEpoch,
}

/// A client's request to extend the maximum term of one claim.
pub struct ClaimTerm {
    pub provider: ActorID,
    pub claim_id: ClaimID,
    pub term_max: ChainEpoch,
}

/// The registry as mathematical values.
pub struct RegistryModel {
    pub root: ActorID,
    pub policy: Policy,
    pub verifiers: Map<ActorID, u64>,
    pub allocations: Map<AllocationID, AllocationModel>,
    pub claims: Map<ClaimID, ClaimModel>,
    pub next_allocation_id: u64,
}

/// The registry of verifiers, allocations and claims.
pub struct Registry {
    /// The root authority, the only caller that may add or remove verifiers.
    pub root: ActorID,
    pub policy: Policy,
    /// Remaining allowance of each verifier.
    pub verifiers: HashMap<ActorID, u64>,
    pub allocations: HashMap<AllocationID, Allocation>,
    pub claims: HashMap<ClaimID, Claim>,
    /// The id that the next allocation will get.
    pub next_allocation_id: u64,
}

impl View for Registry {
    type V = RegistryModel;

    open spec fn view(&self) -> RegistryModel {
        RegistryModel {
            root: self.root,
            policy: self.policy,
            verifiers: self.verifiers@,
            allocations: self.allocations@.map_values(|a: Allocation| a@),
            claims: self.claims@.map_values(|c: Claim| c@),
            next_allocation_id: self.next_allocation_id,
        }
    }
}

/// The bounds that every allocation is held to.
pub open spec fn allocation_in_bounds(a: AllocationModel, p: Policy) -> bool {
    &&& a.size >= p.minimum_allocation_size
    &&& p.minimum_allocation_term <= a.term_min
    &&& a.term_min <= a.term_max
    &&& a.term_max <= p.maximum_allocation_term
}

/// The bounds that every claim is held to; its maximum term has no upper bound.
pub open spec fn claim_in_bounds(c: ClaimModel, p: Policy) -> bool {
    &&& c.size >= p.minimum_allocation_size
    &&& p.minimum_allocation_term <= c.term_min
    &&& c.term_min <= c.term_max
}

/// An allocation request that meets the bounds, at epoch `now`.
pub open spec fn request_valid(r: AllocationRequest, now: ChainEpoch, p: Policy) -> bool {
    &&& r.size >= p.minimum_allocation_size
    &&& p.minimum_allocation_term <= r.term_min
    &&& r.term_min <= r.term_max
    &&& r.term_max <= p.maximum_allocation_term
    &&& r.expiration <= now + p.maximum_allocation_expiration
}

/// The allocation that a request makes for `client`.
pub open spec fn allocation_of_request(client: ActorID, r: AllocationRequest) -> AllocationModel {
    AllocationModel {
        client,
        provider: r.provider,
        data: r.data@,
        size: r.size,
        term_min: r.term_min,
        term_max: r.term_max,
        expiration: r.expiration,
    }
}

/// The claim that an allocation becomes when proven in `sector` at `proof_epoch`.
pub open spec fn claim_of_allocation(a: AllocationModel, sector: u64, proof_epoch: ChainEpoch) -> ClaimModel {
    ClaimModel {
        provider: a.provider,
        client: a.client,
        data: a.data,
        size: a.size,
        term_min: a.term_min,
        term_max: a.term_max,
        term_start: proof_epoch,
        sector,
    }
}

impl RegistryModel {
    /// Every entry meets its bounds, every id was handed out already, and no id is
    /// both an allocation and a claim.
    pub open spec fn wf(&self) -> bool {
        &&& self.policy.wf()
        &&& forall|id: AllocationID| #[trigger] self.allocations.contains_key(id) ==>
                id < self.next_allocation_id && allocation_in_bounds(self.allocations[id], self.policy)
        &&& forall|id: ClaimID| #[trigger] self.claims.contains_key(id) ==>
                id < self.next_allocation_id && claim_in_bounds(self.claims[id], self.policy)
        &&& forall|id: u64| !(#[trigger] self.allocations.contains_key(id) && self.claims.contains_key(id))
    }

    pub open spec fn can_create(&self, r: AllocationRequest, now: ChainEpoch) -> bool {
        request_valid(r, now, self.policy) && self.next_allocation_id < u64::MAX
    }

    /// The state after `client` asks for one allocation at epoch `now`.
    pub open spec fn after_create(&self, client: ActorID, r: AllocationRequest, now: ChainEpoch) -> RegistryModel {
        if self.can_create(r, now) {
            RegistryModel {
                allocations: self.allocations.insert(self.next_allocation_id, allocation_of_request(client, r)),
                next_allocation_id: (self.next_allocation_id + 1) as u64,
                ..*self
            }
        } else {
            *self
        }
    }

    pub open spec fn can_claim(&self, provider: ActorID, r: ClaimRequest, proof_epoch: ChainEpoch) -> bool {
        let a = self.allocations[r.allocation_id];
        &&& self.allocations.contains_key(r.allocation_id)
        &&& a.client == r.client
        &&& a.provider == provider
        &&& a.data == r.data@
        &&& a.size == r.size
        &&& r.sector_expiry >= proof_epoch + a.term_min
        &&& r.sector_expiry - proof_epoch <= a.term_max
    }

    /// The state after `provider` claims one allocation with a proof at `proof_epoch`.
    pub open spec fn after_claim(&self, provider: ActorID, r: ClaimRequest, proof_epoch: ChainEpoch) -> RegistryModel {
        if self.can_claim(provider, r, proof_epoch) {
            RegistryModel {
                allocations: self.allocations.remove(r.allocation_id),
                claims: self.claims.insert(
                    r.allocation_id,
                    claim_of_allocation(self.allocations[r.allocation_id], r.sector, proof_epoch),
                ),
                ..*self
            }
        } else {
            *self
        }
    }

    pub open spec fn allocation_expired(&self, client: ActorID, id: AllocationID, now: ChainEpoch) -> bool {
        &&& self.allocations.contains_key(id)
        &&& self.allocations[id].client == client
        &&& now > self.allocations[id].expiration
    }

    /// The state after an expired allocation of `client` is removed at epoch `now`.
    pub open spec fn after_allocation_removal(&self, client: ActorID, id: AllocationID, now: ChainEpoch) -> RegistryModel {
        if self.allocation_expired(client, id, now) {
            RegistryModel { allocations: self.allocations.remove(id), ..*self }
        } else {
            *self
        }
    }

    pub open spec fn can_extend(&self, client: ActorID, t: ClaimTerm, now: ChainEpoch) -> bool {
        let c = self.claims[t.claim_id];
        &&& self.claims.contains_key(t.claim_id)
        &&& c.provider == t.provider
        &&& c.client == client
        &&& t.term_max >= c.term_max
        &&& t.term_max <= now - c.term_start + self.policy.maximum_allocation_term
        &&& c.term_start + c.term_max >= now
    }

    /// The state after `client` extends one claim at epoch `now`.
    pub open spec fn after_extend(&self, client: ActorID, t: ClaimTerm, now: ChainEpoch) -> RegistryModel {
        if self.can_extend(client, t, now) {
            RegistryModel {
                claims: self.claims.insert(t.claim_id, ClaimModel { term_max: t.term_max, ..self.claims[t.claim_id] }),
                ..*self
            }
        } else {
            *self
        }
    }

    pub open spec fn claim_expired(&self, provider: ActorID, id: ClaimID, now: ChainEpoch) -> bool {
        &&& self.claims.contains_key(id)
        &&& self.claims[id].provider == provider
        &&& now > self.claims[id].term_start + self.claims[id].term_max
    }

    /// The state after an expired claim of `provider` is removed at epoch `now`.
    pub open spec fn after_claim_removal(&self, provider: ActorID, id: ClaimID, now: ChainEpoch) -> RegistryModel {
        if self.claim_expired(provider, id, now) {
            RegistryModel { claims: self.claims.remove(id), ..*self }
        } else {
            *self
        }
    }
}

impl Registry {
    /// An empty registry under the root authority `root`.
    pub fn new(root: ActorID, policy: Policy) -> (r: Registry)
        requires
            policy.wf(),
        ensures
            r@.wf(),
            r@.root == root,
            r@.policy == policy,
            r@.verifiers == Map::<ActorID, u64>::empty(),
            r@.allocations == Map::<AllocationID, AllocationModel>::empty(),
            r@.claims == Map::<ClaimID, ClaimModel>::empty(),
            r@.next_allocation_id == 0,
    {
        let r = Registry {
            root,
            policy,
            verifiers: HashMap::new(),
            allocations: HashMap::new(),
            claims: HashMap::new(),
            next_allocation_id: 0,
        };
        assert(r@.allocations =~= Map::<AllocationID, AllocationModel>::empty());
        assert(r@.claims =~= Map::<ClaimID, ClaimModel>::empty());
        r
    }

    /// Creates one allocation for `client` at epoch `now`, under the next id, if the
    /// request meets the bounds; returns the id.
    pub fn create_allocation(&mut self, client: ActorID, req: &AllocationRequest, now: ChainEpoch) -> (r: Option<AllocationID>)
        requires
            old(self)@.wf(),
        ensures
            final(self)@.wf(),
            final(self)@ == old(self)@.after_create(client, *req, now),
            r is Some <==> old(self)@.can_create(*req, now),
            r is Some ==> r->0 == old(self)@.next_allocation_id,
    {
        let ok = req.size >= self.policy.minimum_allocation_size
            && self.policy.minimum_allocation_term <= req.term_min
            && req.term_min <= req.term_max
            && req.term_max <= self.policy.maximum_allocation_term
            && (req.expiration as i128) <= (now as i128) + (self.policy.maximum_allocation_expiration as i128)
            && self.next_allocation_id < u64::MAX;
        if !ok {
            return None;
        }
        let id = self.next_allocation_id;
        let a = Allocation {
            client,
            provider: req.provider,
            data: crate::types::copy_bytes(&req.data),
            size: req.size,
            term_min: req.term_min,
            term_max: req.term_max,
            expiration: req.expiration,
        };
        self.allocations.insert(id, a);
        self.next_allocation_id = id + 1;
        assert(self@.allocations =~= old(self)@.allocations.insert(id, allocation_of_request(client, *req)));
        Some(id)
    }

    /// Turns the allocation named by `req` into a claim of `provider`, proven at
    /// `proof_epoch`, if it matches and the sector's life fits its terms; returns its size.
    pub fn claim_allocation(&mut self, provider: ActorID, req: &ClaimRequest, proof_epoch: ChainEpoch) -> (r: Option<u64>)
        requires
            old(self)@.wf(),
        ensures
            final(self)@.wf(),
            final(self)@ == old(self)@.after_claim(provider, *req, proof_epoch),
            r is Some <==> old(self)@.can_claim(provider, *req, proof_epoch),
            r is Some ==> r->0 == old(self)@.allocations[req.allocation_id].size,
    {
        let id = req.allocation_id;
        let found = self.allocations.get(&id);
        let ok = match found {
            None => false,
            Some(a) => {
                a.client == req.client && a.provider == provider && bytes_equal(&a.data, &req.data)
                    && a.size == req.size
                    && (req.sector_expiry as i128) >= (proof_epoch as i128) + (a.term_min as i128)
                    && (req.sector_expiry as i128) - (proof_epoch as i128) <= (a.term_max as i128)
            },
        };
        if !ok {
            return None;
        }
        let removed = self.allocations.remove(&id);
        match removed {
            Some(a) => {
                let size = a.size;
                let c = Claim {
                    provider: a.provider,
                    client: a.client,
                    data: a.data,
                    size: a.size,
                    term_min: a.term_min,
                    term_max: a.term_max,
                    term_start: proof_epoch,
                    sector: req.sector,
                };
                self.claims.insert(id, c);
                assert(self@.allocations =~= old(self)@.allocations.remove(id));
                assert(self@.claims =~= old(self)@.claims.insert(id, claim_of_allocation(old(self)@.allocations[id], req.sector, proof_epoch)));
                proof {
                    let s = self@;
                    let o = old(self)@;
                    assert(o.allocations.contains_key(id));
                    assert forall|k: ClaimID| #[trigger] s.claims.contains_key(k) implies k < s.next_allocation_id
                        && claim_in_bounds(s.claims[k], s.policy) by {
                        if k != id {
                            assert(o.claims.contains_key(k));
                        }
                    }
                    assert forall|k: u64| !(#[trigger] s.allocations.contains_key(k) && s.claims.contains_key(k)) by {
                        if k != id && s.allocations.contains_key(k) {
                            assert(o.allocations.contains_key(k));
                        }
                    }
                }
                Some(size)
            },
            None => None,
        }
    }

    /// Removes the allocation `id` of `client` if it expired before `now`; returns its
    /// size, the datacap owed back to the client.
    pub fn remove_expired_allocation(&mut self, client: ActorID, id: AllocationID, now: ChainEpoch) -> (r: Option<u64>)
        requires
            old(self)@.wf(),
        ensures
            final(self)@.wf(),
            final(self)@ == old(self)@.after_allocation_removal(client, id, now),
            r is Some <==> old(self)@.allocation_expired(client, id, now),
            r is Some ==> r->0 == old(self)@.allocations[id].size,
    {
        let ok = match self.allocations.get(&id) {
            None => false,
            Some(a) => a.client == client && now > a.expiration,
        };
        if !ok {
            return None;
        }
        let removed = self.allocations.remove(&id);
        assert(self@.allocations =~= old(self)@.allocations.remove(id));
        match removed {
            Some(a) => Some(a.size),
            None => None,
        }
    }

    /// Raises the maximum term of a claim of `client` to `t.term_max` at epoch `now`, if
    /// the claim is live, the term does not shrink, and stays within the policy's term
    /// counted from now.
    pub fn extend_claim(&mut self, client: ActorID, t: &ClaimTerm, now: ChainEpoch) -> (r: bool)
        requires
            old(self)@.wf(),
        ensures
            final(self)@.wf(),
            final(self)@ == old(self)@.after_extend(client, *t, now),
            r == old(self)@.can_extend(client, *t, now),
    {
        let id = t.claim_id;
        let ok = match self.claims.get(&id) {
            None => false,
            Some(c) => c.provider == t.provider && c.client == client && t.term_max >= c.term_max
                && (t.term_max as i128) <= (now as i128) - (c.term_start as i128) + (self.policy.maximum_allocation_term as i128)
                && (c.term_start as i128) + (c.term_max as i128) >= (now as i128),
        };
        if !ok {
            return false;
        }
        let removed = self.claims.remove(&id);
        match removed {
            Some(c) => {
                let updated = Claim { term_max: t.term_max, ..c };
                self.claims.insert(id, updated);
                assert(self@.claims =~= old(self)@.claims.insert(id, ClaimModel { term_max: t.term_max, ..old(self)@.claims[id] }));
                true
            },
            None => false,
        }
    }

    /// Removes the claim `id` of `provider` if its maximum term ended before `now`.
    pub fn remove_expired_claim(&mut self, provider: ActorID, id: ClaimID, now: ChainEpoch) -> (r: bool)
        requires
            old(self)@.wf(),
        ensures
            final(self)@.wf(),
            final(self)@ == old(self)@.after_claim_removal(provider, id, now),
            r == old(self)@.claim_expired(provider, id, now),
    {
        let ok = match self.claims.get(&id) {
            None => false,
            Some(c) => c.provider == provider && (now as i128) > (c.term_start as i128) + (c.term_max as i128),
        };
        if !ok {
            return false;
        }
        let _ = self.claims.remove(&id);
        assert(self@.claims =~= old(self)@.claims.remove(id));
        true
    }

    /// A copy of the registry with the same contents.
    pub fn duplicate(&self) -> (r: Registry)
        ensures
            r@ == self@,
    {
        Registry {
            root: self.root,
            policy: self.policy,
            verifiers: self.verifiers.clone(),
            allocations: self.allocations.clone(),
            claims: self.claims.clone(),
            next_allocation_id: self.next_allocation_id,
        }
    }

    /// The root authority sets the allowance of `verifier`, overwriting any earlier one.
    /// `verifier_balance` is the verifier's datacap token balance, which must be zero.
    pub fn add_verifier(&mut self, caller: ActorID, verifier: ActorID, allowance: u64, verifier_balance: u128) -> (r: Result<(), RegistryError>)
        requires
            old(self)@.wf(),
        ensures
            final(self)@.wf(),
            caller != old(self).root ==> r == Err::<(), RegistryError>(RegistryError::Forbidden),
            caller == old(self).root && allowance < old(self).policy.minimum_allocation_size ==> r
                == Err::<(), RegistryError>(RegistryError::AllowanceBelowMinimum),
            caller == old(self).root && allowance >= old(self).policy.minimum_allocation_size
                && verifier_balance > 0 ==> r == Err::<(), RegistryError>(RegistryError::VerifierHoldsDatacap),
            r is Ok <==> caller == old(self).root && allowance >= old(self).policy.minimum_allocation_size
                && verifier_balance == 0,
            r is Ok ==> final(self)@ == (RegistryModel {
                verifiers: old(self)@.verifiers.insert(verifier, allowance),
                ..old(self)@
            }),
            r is Err ==> final(self)@ == old(self)@,
    {
        if caller != self.root {
            return Err(RegistryError::Forbidden);
        }
        if allowance < self.policy.minimum_allocation_size {
            return Err(RegistryError::AllowanceBelowMinimum);
        }
        if verifier_balance > 0 {
            return Err(RegistryError::VerifierHoldsDatacap);
        }
        self.verifiers.insert(verifier, allowance);
        Ok(())
    }

    /// The root authority removes `verifier` and its remaining allowance.
    pub fn remove_verifier(&mut self, caller: ActorID, verifier: ActorID) -> (r: Result<(), RegistryError>)
        requires
            old(self)@.wf(),
        ensures
            final(self)@.wf(),
            caller != old(self).root ==> r == Err::<(), RegistryError>(RegistryError::Forbidden),
            caller == old(self).root && !old(self)@.verifiers.contains_key(verifier) ==> r
                == Err::<(), RegistryError>(RegistryError::VerifierNotFound),
            r is Ok <==> caller == old(self).root && old(self)@.verifiers.contains_key(verifier),
            r is Ok ==> final(self)@ == (RegistryModel {
                verifiers: old(self)@.verifiers.remove(verifier),
                ..old(self)@
            }),
            r is Err ==> final(self)@ == old(self)@,
    {
        if caller != self.root {
            return Err(RegistryError::Forbidden);
        }
        if !self.verifiers.contains_key(&verifier) {
            return Err(RegistryError::VerifierNotFound);
        }
        let _ = self.verifiers.remove(&verifier);
        Ok(())
    }

    /// The verifier `caller` grants `allowance` of its own allowance to a client;
    /// returns the amount of datacap to mint for the client.
    pub fn add_verified_client(&mut self, caller: ActorID, allowance: u64) -> (r: Result<u64, RegistryError>)
        requires
            old(self)@.wf(),
        ensures
            final(self)@.wf(),
            !old(self)@.verifiers.contains_key(caller) ==> r == Err::<u64, RegistryError>(RegistryError::Forbidden),
            old(self)@.verifiers.contains_key(caller) && allowance < old(self).policy.minimum_allocation_size
                ==> r == Err::<u64, RegistryError>(RegistryError::AllowanceBelowMinimum),
            old(self)@.verifiers.contains_key(caller) && allowance >= old(self).policy.minimum_allocation_size
                && allowance > old(self)@.verifiers[caller] ==> r == Err::<u64, RegistryError>(RegistryError::InsufficientAllowance),
            r is Ok <==> old(self)@.verifiers.contains_key(caller)
                && allowance >= old(self).policy.minimum_allocation_size
                && allowance <= old(self)@.verifiers[caller],
            r is Ok ==> r->Ok_0 == allowance && final(self)@ == (RegistryModel {
                verifiers: old(self)@.verifiers.insert(caller, (old(self)@.verifiers[caller] - allowance) as u64),
                ..old(self)@
            }),
            r is Err ==> final(self)@ == old(self)@,
    {
        let cap = match self.verifiers.get(&caller) {
            None => {
                return Err(RegistryError::Forbidden);
            },
            Some(c) => *c,
        };
        if allowance < self.policy.minimum_allocation_size {
            return Err(RegistryError::AllowanceBelowMinimum);
        }
        if allowance > cap {
            return Err(RegistryError::InsufficientAllowance);
        }
        self.verifiers.insert(caller, cap - allowance);
        Ok(allowance)
    }
}

/// The outcome of a batch of allocation requests.
pub struct AllocationOutcome {
    /// Whether each request made an allocation.
    pub results: Vec<bool>,
    /// The ids of the allocations made, in request order.
    pub allocation_ids: Vec<AllocationID>,
    /// The part of the tokens received that no allocation used, to be burned.
    pub burned: u128,
}

/// The outcome of a batch of claims.
pub struct ClaimOutcome {
    /// Whether each claim succeeded.
    pub results: Vec<bool>,
    /// The total size of the allocations claimed, whose tokens are to be burned.
    pub burned: u128,
}

/// The outcome of a batch of removals of expired allocations.
pub struct RemovalOutcome {
    /// Whether each id was removed.
    pub results: Vec<bool>,
    /// The total size of the allocations removed, to be transferred back to the client.
    pub refunded: u128,
}

/// The state after the first `n` allocation requests of a batch, in order.
pub open spec fn create_fold(s: RegistryModel, client: ActorID, reqs: Seq<AllocationRequest>, now: ChainEpoch, n: int) -> RegistryModel
    decreases n,
{
    if n <= 0 {
        s
    } else {
        create_fold(s, client, reqs, now, n - 1).after_create(client, reqs[n - 1], now)
    }
}

/// Whether each of the first `n` allocation requests succeeded.
pub open spec fn create_results(s: RegistryModel, client: ActorID, reqs: Seq<AllocationRequest>, now: ChainEpoch, n: int) -> Seq<bool>
    decreases n,
{
    if n <= 0 {
        Seq::empty()
    } else {
        create_results(s, client, reqs, now, n - 1).push(create_fold(s, client, reqs, now, n - 1).can_create(reqs[n - 1], now))
    }
}

/// The ids given to the allocations made by the first `n` requests.
pub open spec fn create_ids(s: RegistryModel, client: ActorID, reqs: Seq<AllocationRequest>, now: ChainEpoch, n: int) -> Seq<AllocationID>
    decreases n,
{
    if n <= 0 {
        Seq::empty()
    } else if create_fold(s, client, reqs, now, n - 1).can_create(reqs[n - 1], now) {
        create_ids(s, client, reqs, now, n - 1).push(create_fold(s, client, reqs, now, n - 1).next_allocation_id)
    } else {
        create_ids(s, client, reqs, now, n - 1)
    }
}

/// The total size of the allocations made by the first `n` requests.
pub open spec fn create_total(s: RegistryModel, client: ActorID, reqs: Seq<AllocationRequest>, now: ChainEpoch, n: int) -> int
    decreases n,
{
    if n <= 0 {
        0
    } else if create_fold(s, client, reqs, now, n - 1).can_create(reqs[n - 1], now) {
        create_total(s, client, reqs, now, n - 1) + reqs[n - 1].size
    } else {
        create_total(s, client, reqs, now, n - 1)
    }
}

/// The state after the first `n` claims of a batch, in order.
pub open spec fn claim_fold(s: RegistryModel, provider: ActorID, reqs: Seq<ClaimRequest>, proof_epoch: ChainEpoch, n: int) -> RegistryModel
    decreases n,
{
    if n <= 0 {
        s
    } else {
        claim_fold(s, provider, reqs, proof_epoch, n - 1).after_claim(provider, reqs[n - 1], proof_epoch)
    }
}

/// Whether each of the first `n` claims succeeded.
pub open spec fn claim_results(s: RegistryModel, provider: ActorID, reqs: Seq<ClaimRequest>, proof_epoch: ChainEpoch, n: int) -> Seq<bool>
    decreases n,
{
    if n <= 0 {
        Seq::empty()
    } else {
        claim_results(s, provider, reqs, proof_epoch, n - 1).push(
            claim_fold(s, provider, reqs, proof_epoch, n - 1).can_claim(provider, reqs[n - 1], proof_epoch),
        )
    }
}

/// The total size of the allocations claimed by the first `n` claims.
pub open spec fn claim_total(s: RegistryModel, provider: ActorID, reqs: Seq<ClaimRequest>, proof_epoch: ChainEpoch, n: int) -> int
    decreases n,
{
    if n <= 0 {
        0
    } else if claim_fold(s, provider, reqs, proof_epoch, n - 1).can_claim(provider, reqs[n - 1], proof_epoch) {
        claim_total(s, provider, reqs, proof_epoch, n - 1) + reqs[n - 1].size
    } else {
        claim_total(s, provider, reqs, proof_epoch, n - 1)
    }
}

/// The state after the first `n` removals of expired allocations, in order.
pub open spec fn removal_fold(s: RegistryModel, client: ActorID, ids: Seq<AllocationID>, now: ChainEpoch, n: int) -> RegistryModel
    decreases n,
{
    if n <= 0 {
        s
    } else {
        removal_fold(s, client, ids, now, n - 1).after_allocation_removal(client, ids[n - 1], now)
    }
}

/// Whether each of the first `n` removals of expired allocations succeeded.
pub open spec fn removal_results(s: RegistryModel, client: ActorID, ids: Seq<AllocationID>, now: ChainEpoch, n: int) -> Seq<bool>
    decreases n,
{
    if n <= 0 {
        Seq::empty()
    } else {
        removal_results(s, client, ids, now, n - 1).push(removal_fold(s, client, ids, now, n - 1).allocation_expired(client, ids[n - 1], now))
    }
}

/// The total size of the allocations removed by the first `n` removals.
pub open spec fn removal_total(s: RegistryModel, client: ActorID, ids: Seq<AllocationID>, now: ChainEpoch, n: int) -> int
    decreases n,
{
    if n <= 0 {
        0
    } else if removal_fold(s, client, ids, now, n - 1).allocation_expired(client, ids[n - 1], now) {
        removal_total(s, client, ids, now, n - 1) + removal_fold(s, client, ids, now, n - 1).allocations[ids[n - 1]].size
    } else {
        removal_total(s, client, ids, now, n - 1)
    }
}

/// The state after the first `n` claim extensions, in order.
pub open spec fn extend_fold(s: RegistryModel, client: ActorID, terms: Seq<ClaimTerm>, now: ChainEpoch, n: int) -> RegistryModel
    decreases n,
{
    if n <= 0 {
        s
    } else {
        extend_fold(s, client, terms, now, n - 1).after_extend(client, terms[n - 1], now)
    }
}

/// Whether each of the first `n` claim extensions succeeded.
pub open spec fn extend_results(s: RegistryModel, client: ActorID, terms: Seq<ClaimTerm>, now: ChainEpoch, n: int) -> Seq<bool>
    decreases n,
{
    if n <= 0 {
        Seq::empty()
    } else {
        extend_results(s, client, terms, now, n - 1).push(extend_fold(s, client, terms, now, n - 1).can_extend(client, terms[n - 1], now))
    }
}

/// The state after the first `n` removals of expired claims, in order.
pub open spec fn claim_removal_fold(s: RegistryModel, provider: ActorID, ids: Seq<ClaimID>, now: ChainEpoch, n: int) -> RegistryModel
    decreases n,
{
    if n <= 0 {
        s
    } else {
        claim_removal_fold(s, provider, ids, now, n - 1).after_claim_removal(provider, ids[n - 1], now)
    }
}

/// Whether each of the first `n` removals of expired claims succeeded.
pub open spec fn claim_removal_results(s: RegistryModel, provider: ActorID, ids: Seq<ClaimID>, now: ChainEpoch, n: int) -> Seq<bool>
    decreases n,
{
    if n <= 0 {
        Seq::empty()
    } else {
        claim_removal_results(s, provider, ids, now, n - 1).push(
            claim_removal_fold(s, provider, ids, now, n - 1).claim_expired(provider, ids[n - 1], now),
        )
    }
}

/// Why a batch of allocation requests is refused as a whole, if it is.
pub open spec fn allocation_batch_error(
    s: RegistryModel,
    client: ActorID,
    received: u64,
    reqs: Seq<AllocationRequest>,
    now: ChainEpoch,
    all_or_nothing: bool,
) -> Option<RegistryError> {
    let results = create_results(s, client, reqs, now, reqs.len() as int);
    if all_or_nothing && results.contains(false) {
        Some(RegistryError::BatchItemFailed)
    } else if reqs.len() > 0 && !results.contains(true) {
        Some(RegistryError::AllItemsFailed)
    } else if create_total(s, client, reqs, now, reqs.len() as int) > received {
        Some(RegistryError::InsufficientTokens)
    } else {
        None
    }
}

proof fn lemma_push_contains(s: Seq<bool>, b: bool, x: bool)
    ensures
        s.push(b).contains(x) == (s.contains(x) || b == x),
{
    if s.contains(x) {
        let k = choose|k: int| 0 <= k < s.len() && s[k] == x;
        assert(s.push(b)[k] == x);
    }
    if b == x {
        assert(s.push(b)[s.len() as int] == x);
    }
    if s.push(b).contains(x) {
        let k = choose|k: int| 0 <= k < s.len() + 1 && s.push(b)[k] == x;
        if k < s.len() {
            assert(s[k] == x);
        }
    }
}

proof fn lemma_total_step(total: int, size: int, i: int)
    requires
        0 <= total <= i * 0xffff_ffff_ffff_ffff,
        0 <= size <= 0xffff_ffff_ffff_ffff,
        0 <= i,
        i + 1 <= 0x1_0000_0000_0000_0000,
    ensures
        total + size <= (i + 1) * 0xffff_ffff_ffff_ffff,
        (i + 1) * 0xffff_ffff_ffff_ffff < 0xffff_ffff_ffff_ffff_ffff_ffff_ffff_ffff,
{
    assert((i + 1) * 0xffff_ffff_ffff_ffff <= 0x1_0000_0000_0000_0000 * 0xffff_ffff_ffff_ffff) by (nonlinear_arith)
        requires
            i + 1 <= 0x1_0000_0000_0000_0000,
            0 <= i,
    ;
    assert(total + size <= (i + 1) * 0xffff_ffff_ffff_ffff) by (nonlinear_arith)
        requires
            total <= i * 0xffff_ffff_ffff_ffff,
            size <= 0xffff_ffff_ffff_ffff,
    ;
}

impl Registry {
    /// Makes allocations for `client` from a batch of requests paid for with `received`
    /// units of datacap, in request order. Requests that fail the bounds are skipped,
    /// unless `all_or_nothing` is set; the batch is refused if every request fails or the
    /// sizes exceed what was received. What no allocation used is to be burned.
    pub fn allocate(
        &mut self,
        client: ActorID,
        received: u64,
        reqs: &Vec<AllocationRequest>,
        now: ChainEpoch,
        all_or_nothing: bool,
    ) -> (r: Result<AllocationOutcome, RegistryError>)
        requires
            old(self)@.wf(),
        ensures
            final(self)@.wf(),
            r is Err ==> allocation_batch_error(old(self)@, client, received, reqs@, now, all_or_nothing) == Some(r->Err_0),
            r is Err ==> final(self)@ == old(self)@,
            r is Ok <==> allocation_batch_error(old(self)@, client, received, reqs@, now, all_or_nothing) is None,
            r is Ok ==> final(self)@ == create_fold(old(self)@, client, reqs@, now, reqs@.len() as int),
            r is Ok ==> r->Ok_0.results@ == create_results(old(self)@, client, reqs@, now, reqs@.len() as int),
            r is Ok ==> r->Ok_0.allocation_ids@ == create_ids(old(self)@, client, reqs@, now, reqs@.len() as int),
            r is Ok ==> r->Ok_0.burned + create_total(old(self)@, client, reqs@, now, reqs@.len() as int) == received,
    {
        let ghost s0 = self@;
        let mut scratch = self.duplicate();
        let mut results: Vec<bool> = Vec::new();
        let mut ids: Vec<AllocationID> = Vec::new();
        let mut total: u128 = 0;
        let mut any_failed = false;
        let mut any_succeeded = false;
        let mut i: usize = 0;
        while i < reqs.len()
            invariant
                i <= reqs@.len(),
                scratch@.wf(),
                scratch@ == create_fold(s0, client, reqs@, now, i as int),
                results@ == create_results(s0, client, reqs@, now, i as int),
                ids@ == create_ids(s0, client, reqs@, now, i as int),
                total == create_total(s0, client, reqs@, now, i as int),
                total <= i * 0xffff_ffff_ffff_ffff,
                any_failed == results@.contains(false),
                any_succeeded == results@.contains(true),
            decreases reqs@.len() - i,
        {
            let made = scratch.create_allocation(client, &reqs[i], now);
            let ghost before = results@;
            proof {
                lemma_total_step(total as int, reqs@[i as int].size as int, i as int);
            }
            match made {
                Some(id) => {
                    results.push(true);
                    ids.push(id);
                    total = total + reqs[i].size as u128;
                    any_succeeded = true;
                },
                None => {
                    results.push(false);
                    any_failed = true;
                },
            }
            proof {
                lemma_push_contains(before, results@.last(), false);
                lemma_push_contains(before, results@.last(), true);
            }
            i = i + 1;
        }
        if all_or_nothing && any_failed {
            return Err(RegistryError::BatchItemFailed);
        }
        if reqs.len() > 0 && !any_succeeded {
            return Err(RegistryError::AllItemsFailed);
        }
        if total > received as u128 {
            return Err(RegistryError::InsufficientTokens);
        }
        *self = scratch;
        Ok(AllocationOutcome { results, allocation_ids: ids, burned: received as u128 - total })
    }

    /// Converts allocations into claims of `provider` for sectors proven at
    /// `proof_epoch`, in order; failed items are skipped unless `all_or_nothing` is set,
    /// in which case the batch is refused. The sizes claimed are to be burned.
    pub fn claim_allocations(
        &mut self,
        provider: ActorID,
        reqs: &Vec<ClaimRequest>,
        proof_epoch: ChainEpoch,
        all_or_nothing: bool,
    ) -> (r: Result<ClaimOutcome, RegistryError>)
        requires
            old(self)@.wf(),
        ensures
            final(self)@.wf(),
            r is Err ==> r->Err_0 == RegistryError::BatchItemFailed && final(self)@ == old(self)@,
            r is Err <==> all_or_nothing && claim_results(old(self)@, provider, reqs@, proof_epoch, reqs@.len() as int).contains(false),
            r is Ok ==> final(self)@ == claim_fold(old(self)@, provider, reqs@, proof_epoch, reqs@.len() as int),
            r is Ok ==> r->Ok_0.results@ == claim_results(old(self)@, provider, reqs@, proof_epoch, reqs@.len() as int),
            r is Ok ==> r->Ok_0.burned == claim_total(old(self)@, provider, reqs@, proof_epoch, reqs@.len() as int),
    {
        let ghost s0 = self@;
        let mut scratch = self.duplicate();
        let mut results: Vec<bool> = Vec::new();
        let mut total: u128 = 0;
        let mut any_failed = false;
        let mut i: usize = 0;
        while i < reqs.len()
            invariant
                i <= reqs@.len(),
                scratch@.wf(),
                scratch@ == claim_fold(s0, provider, reqs@, proof_epoch, i as int),
                results@ == claim_results(s0, provider, reqs@, proof_epoch, i as int),
                total == claim_total(s0, provider, reqs@, proof_epoch, i as int),
                total <= i * 0xffff_ffff_ffff_ffff,
                any_failed == results@.contains(false),
            decreases reqs@.len() - i,
        {
            let claimed = scratch.claim_allocation(provider, &reqs[i], proof_epoch);
            let ghost before = results@;
            proof {
                lemma_total_step(total as int, reqs@[i as int].size as int, i as int);
            }
            match claimed {
                Some(_) => {
                    results.push(true);
                    total = total + reqs[i].size as u128;
                },
                None => {
                    results.push(false);
                    any_failed = true;
                },
            }
            proof {
                lemma_push_contains(before, results@.last(), false);
            }
            i = i + 1;
        }
        if all_or_nothing && any_failed {
            return Err(RegistryError::BatchItemFailed);
        }
        *self = scratch;
        Ok(ClaimOutcome { results, burned: total })
    }

    /// Removes the listed allocations of `client` that expired before `now`, in order;
    /// an id that is absent, another client's, or not expired is skipped. The sizes
    /// removed are owed back to the client.
    pub fn remove_expired_allocations(&mut self, client: ActorID, ids: &Vec<AllocationID>, now: ChainEpoch) -> (r: RemovalOutcome)
        requires
            old(self)@.wf(),
        ensures
            final(self)@.wf(),
            final(self)@ == removal_fold(old(self)@, client, ids@, now, ids@.len() as int),
            r.results@ == removal_results(old(self)@, client, ids@, now, ids@.len() as int),
            r.refunded == removal_total(old(self)@, client, ids@, now, ids@.len() as int),
    {
        let ghost s0 = self@;
        let mut results: Vec<bool> = Vec::new();
        let mut total: u128 = 0;
        let mut i: usize = 0;
        while i < ids.len()
            invariant
                i <= ids@.len(),
                self@.wf(),
                self@ == removal_fold(s0, client, ids@, now, i as int),
                results@ == removal_results(s0, client, ids@, now, i as int),
                total == removal_total(s0, client, ids@, now, i as int),
                total <= i * 0xffff_ffff_ffff_ffff,
            decreases ids@.len() - i,
        {
            let removed = self.remove_expired_allocation(client, ids[i], now);
            match removed {
                Some(size) => {
                    proof {
                        lemma_total_step(total as int, size as int, i as int);
                    }
                    results.push(true);
                    total = total + size as u128;
                },
                None => {
                    results.push(false);
                },
            }
            i = i + 1;
        }
        RemovalOutcome { results, refunded: total }
    }

    /// Extends the listed claims of `client` at epoch `now`, in order; entries that
    /// fail are skipped. Returns whether each succeeded.
    pub fn extend_claim_terms(&mut self, client: ActorID, terms: &Vec<ClaimTerm>, now: ChainEpoch) -> (r: Vec<bool>)
        requires
            old(self)@.wf(),
        ensures
            final(self)@.wf(),
            final(self)@ == extend_fold(old(self)@, client, terms@, now, terms@.len() as int),
            r@ == extend_results(old(self)@, client, terms@, now, terms@.len() as int),
    {
        let ghost s0 = self@;
        let mut results: Vec<bool> = Vec::new();
        let mut i: usize = 0;
        while i < terms.len()
            invariant
                i <= terms@.len(),
                self@.wf(),
                self@ == extend_fold(s0, client, terms@, now, i as int),
                results@ == extend_results(s0, client, terms@, now, i as int),
            decreases terms@.len() - i,
        {
            let done = self.extend_claim(client, &terms[i], now);
            results.push(done);
            i = i + 1;
        }
        results
    }

    /// Removes the listed claims of `provider` whose term ended before `now`, in order;
    /// others are skipped. Returns whether each was removed.
    pub fn remove_expired_claims(&mut self, provider: ActorID, ids: &Vec<ClaimID>, now: ChainEpoch) -> (r: Vec<bool>)
        requires
            old(self)@.wf(),
        ensures
            final(self)@.wf(),
            final(self)@ == claim_removal_fold(old(self)@, provider, ids@, now, ids@.len() as int),
            r@ == claim_removal_results(old(self)@, provider, ids@, now, ids@.len() as int),
    {
        let ghost s0 = self@;
        let mut results: Vec<bool> = Vec::new();
        let mut i: usize = 0;
        while i < ids.len()
            invariant
                i <= ids@.len(),
                self@.wf(),
                self@ == claim_removal_fold(s0, provider, ids@, now, i as int),
                results@ == claim_removal_results(s0, provider, ids@, now, i as int),
            decreases ids@.len() - i,
        {
            let done = self.remove_expired_claim(provider, ids[i], now);
            results.push(done);
            i = i + 1;
        }
        results
    }
}

impl Registry {
    /// Looks up claims of `provider` by id: a copy of each one found, `None` for an id
    /// that is absent or belongs to another provider.
    pub fn get_claims(&self, provider: ActorID, ids: &Vec<ClaimID>) -> (r: Vec<Option<Claim>>)
        ensures
            r@.len() == ids@.len(),
            forall|i: int| 0 <= i < ids@.len() ==> (#[trigger] r@[i] is Some <==> self@.claims.contains_key(ids@[i])
                && self@.claims[ids@[i]].provider == provider),
            forall|i: int| 0 <= i < ids@.len() && #[trigger] r@[i] is Some ==> r@[i]->0@ == self@.claims[ids@[i]],
    {
        let mut found: Vec<Option<Claim>> = Vec::new();
        let mut i: usize = 0;
        while i < ids.len()
            invariant
                i <= ids@.len(),
                found@.len() == i,
                forall|k: int| 0 <= k < i ==> (#[trigger] found@[k] is Some <==> self@.claims.contains_key(ids@[k])
                    && self@.claims[ids@[k]].provider == provider),
                forall|k: int| 0 <= k < i && #[trigger] found@[k] is Some ==> found@[k]->0@ == self@.claims[ids@[k]],
            decreases ids@.len() - i,
        {
            let item = match self.claims.get(&ids[i]) {
                Some(c) => {
                    if c.provider == provider {
                        Some(c.duplicate())
                    } else {
                        None
                    }
                },
                None => None,
            };
            found.push(item);
            i = i + 1;
        }
        found
    }
}

} // verus!
