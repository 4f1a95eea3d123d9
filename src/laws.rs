//! Properties of the registry that hold across calls, proved over its model.

use vstd::prelude::*;

use crate::registry::{
    allocation_in_bounds, claim_of_allocation, create_fold, create_ids, extend_fold,
    AllocationRequest, ClaimRequest, ClaimTerm, RegistryModel,
};
use crate::types::{ActorID, AllocationID, ChainEpoch, ClaimID};

verus! {

/// In a well-formed registry, which every call keeps, each allocation has a size of at
/// least the minimum and terms with `min term <= term_min <= term_max <= max term`.
pub proof fn allocations_stay_in_bounds(s: RegistryModel, id: AllocationID)
    requires
        s.wf(),
        s.allocations.contains_key(id),
    ensures
        allocation_in_bounds(s.allocations[id], s.policy),
        s.allocations[id].size >= s.policy.minimum_allocation_size,
        s.policy.minimum_allocation_term <= s.allocations[id].term_min,
        s.allocations[id].term_min <= s.allocations[id].term_max,
        s.allocations[id].term_max <= s.policy.maximum_allocation_term,
{
}

/// Removing an allocation id that is absent fails and leaves the registry as it was.
pub proof fn removing_absent_allocation_changes_nothing(s: RegistryModel, client: ActorID, id: AllocationID, now: ChainEpoch)
    requires
        !s.allocations.contains_key(id),
    ensures
        !s.allocation_expired(client, id, now),
        s.after_allocation_removal(client, id, now) == s,
{
}

/// Removing the same allocation a second time fails, changes nothing, and so owes no
/// second refund.
pub proof fn removing_allocation_twice_refunds_once(s: RegistryModel, client: ActorID, id: AllocationID, now: ChainEpoch)
    ensures
        !s.after_allocation_removal(client, id, now).allocation_expired(client, id, now),
        s.after_allocation_removal(client, id, now).after_allocation_removal(client, id, now)
            == s.after_allocation_removal(client, id, now),
{
}

/// Removing a claim id that is absent, or removing a claim a second time, fails and
/// changes nothing.
pub proof fn removing_claim_twice_changes_nothing(s: RegistryModel, provider: ActorID, id: ClaimID, now: ChainEpoch)
    ensures
        !s.claims.contains_key(id) ==> !s.claim_expired(provider, id, now) && s.after_claim_removal(provider, id, now) == s,
        !s.after_claim_removal(provider, id, now).claim_expired(provider, id, now),
        s.after_claim_removal(provider, id, now).after_claim_removal(provider, id, now)
            == s.after_claim_removal(provider, id, now),
{
}

/// Claiming moves datacap without making or losing any: the allocation leaves, a claim
/// of the same size and id takes its place, and the amount burned is that size.
pub proof fn claiming_keeps_size(s: RegistryModel, provider: ActorID, r: ClaimRequest, proof_epoch: ChainEpoch)
    requires
        s.wf(),
        s.can_claim(provider, r, proof_epoch),
    ensures
        !s.after_claim(provider, r, proof_epoch).allocations.contains_key(r.allocation_id),
        s.after_claim(provider, r, proof_epoch).claims.contains_key(r.allocation_id),
        s.after_claim(provider, r, proof_epoch).claims[r.allocation_id].size == s.allocations[r.allocation_id].size,
        s.allocations[r.allocation_id].size == r.size,
        s.after_claim(provider, r, proof_epoch).claims[r.allocation_id]
            == claim_of_allocation(s.allocations[r.allocation_id], r.sector, proof_epoch),
{
}

/// No id is both an allocation and a claim.
pub proof fn ids_are_never_shared(s: RegistryModel, id: u64)
    requires
        s.wf(),
    ensures
        !(s.allocations.contains_key(id) && s.claims.contains_key(id)),
{
}

/// A new allocation takes the counter's id, which no allocation or claim holds yet,
/// and the counter moves past it.
pub proof fn new_allocation_id_is_fresh(s: RegistryModel, client: ActorID, r: AllocationRequest, now: ChainEpoch)
    requires
        s.wf(),
        s.can_create(r, now),
    ensures
        !s.allocations.contains_key(s.next_allocation_id),
        !s.claims.contains_key(s.next_allocation_id),
        s.after_create(client, r, now).allocations.contains_key(s.next_allocation_id),
        s.after_create(client, r, now).next_allocation_id == s.next_allocation_id + 1,
{
}

/// The ids handed out by a batch of allocation requests strictly increase, start at
/// the counter's value, and stay below the counter afterwards: none is used twice.
pub proof fn batch_allocation_ids_increase(s: RegistryModel, client: ActorID, reqs: Seq<AllocationRequest>, now: ChainEpoch, n: int)
    requires
        0 <= n <= reqs.len(),
    ensures
        s.next_allocation_id <= create_fold(s, client, reqs, now, n).next_allocation_id,
        forall|j: int, k: int| 0 <= j < k < create_ids(s, client, reqs, now, n).len()
            ==> create_ids(s, client, reqs, now, n)[j] < create_ids(s, client, reqs, now, n)[k],
        forall|j: int| 0 <= j < create_ids(s, client, reqs, now, n).len() ==> s.next_allocation_id
            <= #[trigger] create_ids(s, client, reqs, now, n)[j] < create_fold(s, client, reqs, now, n).next_allocation_id,
    decreases n,
{
    if n > 0 {
        batch_allocation_ids_increase(s, client, reqs, now, n - 1);
        let prev = create_ids(s, client, reqs, now, n - 1);
        let f = create_fold(s, client, reqs, now, n - 1);
        let ids = create_ids(s, client, reqs, now, n);
        if f.can_create(reqs[n - 1], now) {
            assert(ids == prev.push(f.next_allocation_id));
            assert forall|j: int, k: int| 0 <= j < k < ids.len() implies ids[j] < ids[k] by {
                if k < prev.len() {
                    assert(ids[j] == prev[j] && ids[k] == prev[k]);
                } else {
                    assert(ids[j] == prev[j]);
                }
            }
            assert forall|j: int| 0 <= j < ids.len() implies s.next_allocation_id <= #[trigger] ids[j]
                < create_fold(s, client, reqs, now, n).next_allocation_id by {
                if j < prev.len() {
                    assert(ids[j] == prev[j]);
                }
            }
        } else {
            assert(ids == prev);
        }
    }
}

/// An accepted extension never shortens a claim: its maximum term does not decrease,
/// and nothing else of it changes.
pub proof fn extension_never_shortens(s: RegistryModel, client: ActorID, t: ClaimTerm, now: ChainEpoch, id: ClaimID)
    requires
        s.claims.contains_key(id),
    ensures
        s.after_extend(client, t, now).claims.contains_key(id),
        s.after_extend(client, t, now).claims[id].term_max >= s.claims[id].term_max,
        s.after_extend(client, t, now).claims[id].term_min == s.claims[id].term_min,
        s.after_extend(client, t, now).claims[id].term_start == s.claims[id].term_start,
        s.after_extend(client, t, now).claims[id].size == s.claims[id].size,
{
}

/// Over a whole batch of extensions, every claim stays and its maximum term never
/// decreases.
pub proof fn batch_extension_never_shortens(s: RegistryModel, client: ActorID, terms: Seq<ClaimTerm>, now: ChainEpoch, n: int, id: ClaimID)
    requires
        0 <= n <= terms.len(),
        s.claims.contains_key(id),
    ensures
        extend_fold(s, client, terms, now, n).claims.contains_key(id),
        extend_fold(s, client, terms, now, n).claims[id].term_max >= s.claims[id].term_max,
    decreases n,
{
    if n > 0 {
        batch_extension_never_shortens(s, client, terms, now, n - 1, id);
        extension_never_shortens(extend_fold(s, client, terms, now, n - 1), client, terms[n - 1], now, id);
    }
}

/// No call moves the id counter back, so an id once handed out is never handed out
/// again, and a removed allocation or claim leaves its id retired.
pub proof fn id_counter_never_decreases(
    s: RegistryModel,
    actor: ActorID,
    a: AllocationRequest,
    c: ClaimRequest,
    t: ClaimTerm,
    id: u64,
    now: ChainEpoch,
)
    ensures
        s.after_create(actor, a, now).next_allocation_id >= s.next_allocation_id,
        s.after_claim(actor, c, now).next_allocation_id == s.next_allocation_id,
        s.after_allocation_removal(actor, id, now).next_allocation_id == s.next_allocation_id,
        s.after_extend(actor, t, now).next_allocation_id == s.next_allocation_id,
        s.after_claim_removal(actor, id, now).next_allocation_id == s.next_allocation_id,
{
}

} // verus!
