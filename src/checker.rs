use vstd::prelude::*;

use crate::keys::{
    actor_id_of_key, address_protocol_of, decode_owner_key, key_address_protocol, ID_PROTOCOL,
};
use crate::types::{
    copy_bytes, ActorID, Allocation, AllocationID, AllocationModel, ChainEpoch, Claim, ClaimID,
    ClaimModel, Policy,
};

verus! {

/// One broken rule of the persisted registry state.
#[derive(PartialEq, Eq, Structural, Clone, Copy, Debug)]
pub enum Violation {
    /// The verifier key at this position is not the bytes of an id address.
    VerifierNotIdAddress { index: usize },
    /// The verifier at this position holds a negative allowance.
    VerifierCapNegative { index: usize, cap: i128 },
    /// The client key of the allocation table at this position is no actor id.
    AllocationKeyUndecodable { index: usize },
    /// The provider key of the claim table at this position is no actor id.
    ClaimKeyUndecodable { index: usize },
    AllocationIdTooLarge { id: AllocationID, next: u64 },
    AllocationClientMismatch { id: AllocationID, client: ActorID, key: ActorID },
    AllocationSizeTooSmall { id: AllocationID, size: u64 },
    AllocationTermMinTooSmall { id: AllocationID, term_min: ChainEpoch },
    AllocationTermMaxTooLarge { id: AllocationID, term_max: ChainEpoch },
    AllocationTermMinExceedsMax { id: AllocationID, term_min: ChainEpoch, term_max: ChainEpoch },
    AllocationExpirationTooFar { id: AllocationID, expiration: ChainEpoch, now: ChainEpoch },
    ClaimIdTooLarge { id: ClaimID, next: u64 },
    ClaimProviderMismatch { id: ClaimID, provider: ActorID, key: ActorID },
    ClaimSizeTooSmall { id: ClaimID, size: u64 },
    ClaimTermMinTooSmall { id: ClaimID, term_min: ChainEpoch },
    ClaimTermMinExceedsMax { id: ClaimID, term_min: ChainEpoch, term_max: ChainEpoch },
    ClaimStartsAfterNow { id: ClaimID, term_start: ChainEpoch, now: ChainEpoch },
}

/// A verifier's entry as persisted: the bytes of its address and its remaining allowance.
pub struct VerifierEntry {
    pub key: Vec<u8>,
    pub cap: i128,
}

/// An allocation together with the id it is stored under.
pub struct AllocationEntry {
    pub id: AllocationID,
    pub allocation: Allocation,
}

/// A claim together with the id it is stored under.
pub struct ClaimEntry {
    pub id: ClaimID,
    pub claim: Claim,
}

/// One client's allocations, under the persisted key of that client.
pub struct AllocationTable {
    pub key: Vec<u8>,
    pub entries: Vec<AllocationEntry>,
}

/// One provider's claims, under the persisted key of that provider.
pub struct ClaimTable {
    pub key: Vec<u8>,
    pub entries: Vec<ClaimEntry>,
}

/// The registry state as read from storage.
pub struct StateSnapshot {
    pub verifiers: Vec<VerifierEntry>,
    pub allocations: Vec<AllocationTable>,
    pub claims: Vec<ClaimTable>,
    pub next_allocation_id: u64,
}

/// Everything the snapshot holds, with the owner tables flattened.
pub struct StateSummary {
    pub verifiers: Vec<VerifierEntry>,
    pub allocations: Vec<AllocationEntry>,
    pub claims: Vec<ClaimEntry>,
}

/// The single violation `v` where `c` holds, else nothing.
pub open spec fn when(c: bool, v: Violation) -> Seq<Violation> {
    if c {
        seq![v]
    } else {
        Seq::empty()
    }
}

/// The rules broken by the verifier at position `index`.
pub open spec fn verifier_violations(index: usize, key: Seq<u8>, cap: i128) -> Seq<Violation> {
    when(address_protocol_of(key) != Some(ID_PROTOCOL), Violation::VerifierNotIdAddress { index })
        + when(cap < 0, Violation::VerifierCapNegative { index, cap })
}

/// The rules broken by an allocation stored under `id` in the table of `client`.
pub open spec fn allocation_violations(
    id: AllocationID,
    a: AllocationModel,
    client: ActorID,
    next: u64,
    now: ChainEpoch,
    p: Policy,
) -> Seq<Violation> {
    when(!(id < next), Violation::AllocationIdTooLarge { id, next })
        + when(a.client != client, Violation::AllocationClientMismatch { id, client: a.client, key: client })
        + when(a.size < p.minimum_allocation_size, Violation::AllocationSizeTooSmall { id, size: a.size })
        + when(a.term_min < p.minimum_allocation_term, Violation::AllocationTermMinTooSmall { id, term_min: a.term_min })
        + when(a.term_max > p.maximum_allocation_term, Violation::AllocationTermMaxTooLarge { id, term_max: a.term_max })
        + when(a.term_min > a.term_max, Violation::AllocationTermMinExceedsMax { id, term_min: a.term_min, term_max: a.term_max })
        + when(a.expiration > now + p.maximum_allocation_expiration, Violation::AllocationExpirationTooFar { id, expiration: a.expiration, now })
}

/// The rules broken by a claim stored under `id` in the table of `provider`.
pub open spec fn claim_violations(
    id: ClaimID,
    c: ClaimModel,
    provider: ActorID,
    next: u64,
    now: ChainEpoch,
    p: Policy,
) -> Seq<Violation> {
    when(!(id < next), Violation::ClaimIdTooLarge { id, next })
        + when(c.provider != provider, Violation::ClaimProviderMismatch { id, provider: c.provider, key: provider })
        + when(c.size < p.minimum_allocation_size, Violation::ClaimSizeTooSmall { id, size: c.size })
        + when(c.term_min < p.minimum_allocation_term, Violation::ClaimTermMinTooSmall { id, term_min: c.term_min })
        + when(c.term_min > c.term_max, Violation::ClaimTermMinExceedsMax { id, term_min: c.term_min, term_max: c.term_max })
        + when(c.term_start > now, Violation::ClaimStartsAfterNow { id, term_start: c.term_start, now })
}

pub open spec fn verifiers_violations(vs: Seq<VerifierEntry>, n: int) -> Seq<Violation>
    decreases n,
{
    if n <= 0 {
        Seq::empty()
    } else {
        verifiers_violations(vs, n - 1) + verifier_violations((n - 1) as usize, vs[n - 1].key@, vs[n - 1].cap)
    }
}

pub open spec fn allocation_entries_violations(
    es: Seq<AllocationEntry>,
    n: int,
    client: ActorID,
    next: u64,
    now: ChainEpoch,
    p: Policy,
) -> Seq<Violation>
    decreases n,
{
    if n <= 0 {
        Seq::empty()
    } else {
        allocation_entries_violations(es, n - 1, client, next, now, p)
            + allocation_violations(es[n - 1].id, es[n - 1].allocation@, client, next, now, p)
    }
}

pub open spec fn claim_entries_violations(
    es: Seq<ClaimEntry>,
    n: int,
    provider: ActorID,
    next: u64,
    now: ChainEpoch,
    p: Policy,
) -> Seq<Violation>
    decreases n,
{
    if n <= 0 {
        Seq::empty()
    } else {
        claim_entries_violations(es, n - 1, provider, next, now, p)
            + claim_violations(es[n - 1].id, es[n - 1].claim@, provider, next, now, p)
    }
}

/// The rules broken within the allocation table at position `index`.
pub open spec fn allocation_table_violations(
    index: usize,
    t: AllocationTable,
    next: u64,
    now: ChainEpoch,
    p: Policy,
) -> Seq<Violation> {
    match actor_id_of_key(t.key@) {
        None => seq![Violation::AllocationKeyUndecodable { index }],
        Some(client) => allocation_entries_violations(t.entries@, t.entries@.len() as int, client, next, now, p),
    }
}

/// The rules broken within the claim table at position `index`.
pub open spec fn claim_table_violations(
    index: usize,
    t: ClaimTable,
    next: u64,
    now: ChainEpoch,
    p: Policy,
) -> Seq<Violation> {
    match actor_id_of_key(t.key@) {
        None => seq![Violation::ClaimKeyUndecodable { index }],
        Some(provider) => claim_entries_violations(t.entries@, t.entries@.len() as int, provider, next, now, p),
    }
}

pub open spec fn allocation_tables_violations(
    ts: Seq<AllocationTable>,
    n: int,
    next: u64,
    now: ChainEpoch,
    p: Policy,
) -> Seq<Violation>
    decreases n,
{
    if n <= 0 {
        Seq::empty()
    } else {
        allocation_tables_violations(ts, n - 1, next, now, p)
            + allocation_table_violations((n - 1) as usize, ts[n - 1], next, now, p)
    }
}

pub open spec fn claim_tables_violations(
    ts: Seq<ClaimTable>,
    n: int,
    next: u64,
    now: ChainEpoch,
    p: Policy,
) -> Seq<Violation>
    decreases n,
{
    if n <= 0 {
        Seq::empty()
    } else {
        claim_tables_violations(ts, n - 1, next, now, p)
            + claim_table_violations((n - 1) as usize, ts[n - 1], next, now, p)
    }
}

/// Every rule that the snapshot breaks, in the order verifiers, allocations, claims.
pub open spec fn state_violations(s: StateSnapshot, now: ChainEpoch, p: Policy) -> Seq<Violation> {
    verifiers_violations(s.verifiers@, s.verifiers@.len() as int)
        + allocation_tables_violations(s.allocations@, s.allocations@.len() as int, s.next_allocation_id, now, p)
        + claim_tables_violations(s.claims@, s.claims@.len() as int, s.next_allocation_id, now, p)
}

/// Appends to `acc` each rule that an allocation stored under `id` in the table of
/// `client` breaks.
pub fn check_allocation_state(
    id: AllocationID,
    alloc: &Allocation,
    client: ActorID,
    next_alloc_id: u64,
    prior_epoch: ChainEpoch,
    policy: &Policy,
    acc: &mut Vec<Violation>,
)
    requires
        policy.wf(),
    ensures
        final(acc)@ == old(acc)@ + allocation_violations(id, alloc@, client, next_alloc_id, prior_epoch, *policy),
{
    let mut found: Vec<Violation> = Vec::new();
    if !(id < next_alloc_id) {
        found.push(Violation::AllocationIdTooLarge { id, next: next_alloc_id });
    }
    if alloc.client != client {
        found.push(Violation::AllocationClientMismatch { id, client: alloc.client, key: client });
    }
    if alloc.size < policy.minimum_allocation_size {
        found.push(Violation::AllocationSizeTooSmall { id, size: alloc.size });
    }
    if alloc.term_min < policy.minimum_allocation_term {
        found.push(Violation::AllocationTermMinTooSmall { id, term_min: alloc.term_min });
    }
    if alloc.term_max > policy.maximum_allocation_term {
        found.push(Violation::AllocationTermMaxTooLarge { id, term_max: alloc.term_max });
    }
    if alloc.term_min > alloc.term_max {
        found.push(Violation::AllocationTermMinExceedsMax { id, term_min: alloc.term_min, term_max: alloc.term_max });
    }
    if (alloc.expiration as i128) > (prior_epoch as i128) + (policy.maximum_allocation_expiration as i128) {
        found.push(Violation::AllocationExpirationTooFar { id, expiration: alloc.expiration, now: prior_epoch });
    }
    assert(found@ =~= allocation_violations(id, alloc@, client, next_alloc_id, prior_epoch, *policy));
    acc.append(&mut found);
}

/// Appends to `acc` each rule that a claim stored under `id` in the table of
/// `provider` breaks. A claim's maximum term has no upper bound: a client may
/// extend it by spending more datacap.
pub fn check_claim_state(
    id: ClaimID,
    claim: &Claim,
    provider: ActorID,
    next_alloc_id: u64,
    prior_epoch: ChainEpoch,
    policy: &Policy,
    acc: &mut Vec<Violation>,
)
    requires
        policy.wf(),
    ensures
        final(acc)@ == old(acc)@ + claim_violations(id, claim@, provider, next_alloc_id, prior_epoch, *policy),
{
    let mut found: Vec<Violation> = Vec::new();
    if !(id < next_alloc_id) {
        found.push(Violation::ClaimIdTooLarge { id, next: next_alloc_id });
    }
    if claim.provider != provider {
        found.push(Violation::ClaimProviderMismatch { id, provider: claim.provider, key: provider });
    }
    if claim.size < policy.minimum_allocation_size {
        found.push(Violation::ClaimSizeTooSmall { id, size: claim.size });
    }
    if claim.term_min < policy.minimum_allocation_term {
        found.push(Violation::ClaimTermMinTooSmall { id, term_min: claim.term_min });
    }
    if claim.term_min > claim.term_max {
        found.push(Violation::ClaimTermMinExceedsMax { id, term_min: claim.term_min, term_max: claim.term_max });
    }
    if claim.term_start > prior_epoch {
        found.push(Violation::ClaimStartsAfterNow { id, term_start: claim.term_start, now: prior_epoch });
    }
    assert(found@ =~= claim_violations(id, claim@, provider, next_alloc_id, prior_epoch, *policy));
    acc.append(&mut found);
}

pub open spec fn verifier_entries_view(vs: Seq<VerifierEntry>) -> Seq<(Seq<u8>, i128)> {
    vs.map_values(|e: VerifierEntry| (e.key@, e.cap))
}

pub open spec fn allocation_entries_view(es: Seq<AllocationEntry>) -> Seq<(AllocationID, AllocationModel)> {
    es.map_values(|e: AllocationEntry| (e.id, e.allocation@))
}

pub open spec fn claim_entries_view(es: Seq<ClaimEntry>) -> Seq<(ClaimID, ClaimModel)> {
    es.map_values(|e: ClaimEntry| (e.id, e.claim@))
}

/// The entries of the first `n` allocation tables, table after table.
pub open spec fn allocation_tables_flat(ts: Seq<AllocationTable>, n: int) -> Seq<(AllocationID, AllocationModel)>
    decreases n,
{
    if n <= 0 {
        Seq::empty()
    } else {
        allocation_tables_flat(ts, n - 1) + allocation_entries_view(ts[n - 1].entries@)
    }
}

/// The entries of the first `n` claim tables, table after table.
pub open spec fn claim_tables_flat(ts: Seq<ClaimTable>, n: int) -> Seq<(ClaimID, ClaimModel)>
    decreases n,
{
    if n <= 0 {
        Seq::empty()
    } else {
        claim_tables_flat(ts, n - 1) + claim_entries_view(ts[n - 1].entries@)
    }
}

fn check_verifiers(vs: &Vec<VerifierEntry>, acc: &mut Vec<Violation>, out: &mut Vec<VerifierEntry>)
    ensures
        final(acc)@ == old(acc)@ + verifiers_violations(vs@, vs@.len() as int),
        verifier_entries_view(final(out)@) == verifier_entries_view(old(out)@) + verifier_entries_view(vs@),
{
    let mut i: usize = 0;
    while i < vs.len()
        invariant
            i <= vs@.len(),
            acc@ == old(acc)@ + verifiers_violations(vs@, i as int),
            verifier_entries_view(out@) == verifier_entries_view(old(out)@) + verifier_entries_view(vs@.subrange(0, i as int)),
        decreases vs@.len() - i,
    {
        let e = &vs[i];
        let mut found: Vec<Violation> = Vec::new();
        let protocol = key_address_protocol(&e.key);
        if protocol != Some(ID_PROTOCOL) {
            found.push(Violation::VerifierNotIdAddress { index: i });
        }
        if e.cap < 0 {
            found.push(Violation::VerifierCapNegative { index: i, cap: e.cap });
        }
        assert(found@ =~= verifier_violations(i, e.key@, e.cap));
        acc.append(&mut found);
        proof {
            assert(acc@ =~= old(acc)@ + verifiers_violations(vs@, i + 1));
        }
        let ghost before = out@;
        out.push(VerifierEntry { key: copy_bytes(&e.key), cap: e.cap });
        proof {
            assert(vs@.subrange(0, i + 1) =~= vs@.subrange(0, i as int).push(vs@[i as int]));
            assert(verifier_entries_view(out@) =~= verifier_entries_view(before).push((e.key@, e.cap)));
            assert(verifier_entries_view(vs@.subrange(0, i + 1)) =~= verifier_entries_view(vs@.subrange(0, i as int)).push((e.key@, e.cap)));
        }
        i = i + 1;
    }
    assert(vs@.subrange(0, i as int) =~= vs@);
}

fn check_allocation_table(
    index: usize,
    t: &AllocationTable,
    next_alloc_id: u64,
    prior_epoch: ChainEpoch,
    policy: &Policy,
    acc: &mut Vec<Violation>,
    out: &mut Vec<AllocationEntry>,
)
    requires
        policy.wf(),
    ensures
        final(acc)@ == old(acc)@ + allocation_table_violations(index, *t, next_alloc_id, prior_epoch, *policy),
        allocation_entries_view(final(out)@) == allocation_entries_view(old(out)@) + allocation_entries_view(t.entries@),
{
    let owner = decode_owner_key(&t.key);
    if owner.is_none() {
        acc.push(Violation::AllocationKeyUndecodable { index });
    }
    let mut i: usize = 0;
    while i < t.entries.len()
        invariant
            policy.wf(),
            owner == actor_id_of_key(t.key@),
            i <= t.entries@.len(),
            owner is None ==> acc@ == old(acc)@ + allocation_table_violations(index, *t, next_alloc_id, prior_epoch, *policy),
            owner is Some ==> acc@ == old(acc)@ + allocation_entries_violations(t.entries@, i as int, owner->0, next_alloc_id, prior_epoch, *policy),
            allocation_entries_view(out@) == allocation_entries_view(old(out)@) + allocation_entries_view(t.entries@.subrange(0, i as int)),
        decreases t.entries@.len() - i,
    {
        let e = &t.entries[i];
        match owner {
            Some(client) => {
                check_allocation_state(e.id, &e.allocation, client, next_alloc_id, prior_epoch, policy, acc);
                proof {
                    assert(acc@ =~= old(acc)@ + allocation_entries_violations(t.entries@, i + 1, client, next_alloc_id, prior_epoch, *policy));
                }
            },
            None => {},
        }
        let ghost before = out@;
        out.push(AllocationEntry { id: e.id, allocation: e.allocation.duplicate() });
        proof {
            assert(t.entries@.subrange(0, i + 1) =~= t.entries@.subrange(0, i as int).push(t.entries@[i as int]));
            assert(allocation_entries_view(out@) =~= allocation_entries_view(before).push((e.id, e.allocation@)));
            assert(allocation_entries_view(t.entries@.subrange(0, i + 1)) =~= allocation_entries_view(t.entries@.subrange(0, i as int)).push((e.id, e.allocation@)));
        }
        i = i + 1;
    }
    assert(t.entries@.subrange(0, i as int) =~= t.entries@);
}

fn check_claim_table(
    index: usize,
    t: &ClaimTable,
    next_alloc_id: u64,
    prior_epoch: ChainEpoch,
    policy: &Policy,
    acc: &mut Vec<Violation>,
    out: &mut Vec<ClaimEntry>,
)
    requires
        policy.wf(),
    ensures
        final(acc)@ == old(acc)@ + claim_table_violations(index, *t, next_alloc_id, prior_epoch, *policy),
        claim_entries_view(final(out)@) == claim_entries_view(old(out)@) + claim_entries_view(t.entries@),
{
    let owner = decode_owner_key(&t.key);
    if owner.is_none() {
        acc.push(Violation::ClaimKeyUndecodable { index });
    }
    let mut i: usize = 0;
    while i < t.entries.len()
        invariant
            policy.wf(),
            owner == actor_id_of_key(t.key@),
            i <= t.entries@.len(),
            owner is None ==> acc@ == old(acc)@ + claim_table_violations(index, *t, next_alloc_id, prior_epoch, *policy),
            owner is Some ==> acc@ == old(acc)@ + claim_entries_violations(t.entries@, i as int, owner->0, next_alloc_id, prior_epoch, *policy),
            claim_entries_view(out@) == claim_entries_view(old(out)@) + claim_entries_view(t.entries@.subrange(0, i as int)),
        decreases t.entries@.len() - i,
    {
        let e = &t.entries[i];
        match owner {
            Some(provider) => {
                check_claim_state(e.id, &e.claim, provider, next_alloc_id, prior_epoch, policy, acc);
                proof {
                    assert(acc@ =~= old(acc)@ + claim_entries_violations(t.entries@, i + 1, provider, next_alloc_id, prior_epoch, *policy));
                }
            },
            None => {},
        }
        let ghost before = out@;
        out.push(ClaimEntry { id: e.id, claim: e.claim.duplicate() });
        proof {
            assert(t.entries@.subrange(0, i + 1) =~= t.entries@.subrange(0, i as int).push(t.entries@[i as int]));
            assert(claim_entries_view(out@) =~= claim_entries_view(before).push((e.id, e.claim@)));
            assert(claim_entries_view(t.entries@.subrange(0, i + 1)) =~= claim_entries_view(t.entries@.subrange(0, i as int)).push((e.id, e.claim@)));
        }
        i = i + 1;
    }
    assert(t.entries@.subrange(0, i as int) =~= t.entries@);
}

/// Audits a registry snapshot at epoch `prior_epoch`: reports every broken rule,
/// without stopping at the first, and lists every verifier, allocation and claim found.
pub fn check_state_invariants(
    state: &StateSnapshot,
    policy: &Policy,
    prior_epoch: ChainEpoch,
) -> (r: (StateSummary, Vec<Violation>))
    requires
        policy.wf(),
    ensures
        r.1@ == state_violations(*state, prior_epoch, *policy),
        verifier_entries_view(r.0.verifiers@) == verifier_entries_view(state.verifiers@),
        allocation_entries_view(r.0.allocations@) == allocation_tables_flat(state.allocations@, state.allocations@.len() as int),
        claim_entries_view(r.0.claims@) == claim_tables_flat(state.claims@, state.claims@.len() as int),
{
    let mut acc: Vec<Violation> = Vec::new();
    let mut verifiers: Vec<VerifierEntry> = Vec::new();
    check_verifiers(&state.verifiers, &mut acc, &mut verifiers);
    assert(verifier_entries_view(verifiers@) =~= verifier_entries_view(state.verifiers@));
    let ghost after_verifiers = acc@;

    let mut allocations: Vec<AllocationEntry> = Vec::new();
    let mut i: usize = 0;
    while i < state.allocations.len()
        invariant
            policy.wf(),
            i <= state.allocations@.len(),
            acc@ == after_verifiers + allocation_tables_violations(state.allocations@, i as int, state.next_allocation_id, prior_epoch, *policy),
            allocation_entries_view(allocations@) == allocation_tables_flat(state.allocations@, i as int),
        decreases state.allocations@.len() - i,
    {
        check_allocation_table(i, &state.allocations[i], state.next_allocation_id, prior_epoch, policy, &mut acc, &mut allocations);
        proof {
            assert(acc@ =~= after_verifiers + allocation_tables_violations(state.allocations@, i + 1, state.next_allocation_id, prior_epoch, *policy));
        }
        i = i + 1;
    }
    let ghost after_allocations = acc@;

    let mut claims: Vec<ClaimEntry> = Vec::new();
    let mut j: usize = 0;
    while j < state.claims.len()
        invariant
            policy.wf(),
            j <= state.claims@.len(),
            acc@ == after_allocations + claim_tables_violations(state.claims@, j as int, state.next_allocation_id, prior_epoch, *policy),
            claim_entries_view(claims@) == claim_tables_flat(state.claims@, j as int),
        decreases state.claims@.len() - j,
    {
        check_claim_table(j, &state.claims[j], state.next_allocation_id, prior_epoch, policy, &mut acc, &mut claims);
        proof {
            assert(acc@ =~= after_allocations + claim_tables_violations(state.claims@, j + 1, state.next_allocation_id, prior_epoch, *policy));
        }
        j = j + 1;
    }
    assert(acc@ =~= state_violations(*state, prior_epoch, *policy));
    (StateSummary { verifiers, allocations, claims }, acc)
}

} // verus!
