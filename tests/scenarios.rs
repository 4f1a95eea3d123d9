use verifreg::checker::{
    check_state_invariants, AllocationEntry, AllocationTable, ClaimEntry, ClaimTable, StateSnapshot,
    VerifierEntry,
};
use verifreg::registry::{AllocationRequest, ClaimRequest, ClaimTerm, Registry, RegistryError};
use verifreg::types::{
    tokens_of, Policy, MAXIMUM_VERIFIED_ALLOCATION_TERM, MINIMUM_VERIFIED_ALLOCATION_TERM,
    TOKEN_PRECISION,
};

const ROOT: u64 = 80;
const VERIFIER: u64 = 101;
const CLIENT: u64 = 102;
const PROVIDER: u64 = 103;

fn small_policy() -> Policy {
    Policy::new(256, MINIMUM_VERIFIED_ALLOCATION_TERM, MAXIMUM_VERIFIED_ALLOCATION_TERM, 172800).unwrap()
}

fn request(size: u64, expiration: i64) -> AllocationRequest {
    AllocationRequest {
        provider: PROVIDER,
        data: vec![1, 2, 3, 4],
        size,
        term_min: MINIMUM_VERIFIED_ALLOCATION_TERM,
        term_max: MAXIMUM_VERIFIED_ALLOCATION_TERM,
        expiration,
    }
}

fn snapshot_of(r: &Registry) -> StateSnapshot {
    let verifiers = r
        .verifiers
        .iter()
        .map(|(id, cap)| VerifierEntry { key: vec![0, *id as u8], cap: *cap as i128 })
        .collect();
    let mut allocations: Vec<AllocationTable> = Vec::new();
    for (id, a) in r.allocations.iter() {
        allocations.push(AllocationTable {
            key: vec![a.client as u8],
            entries: vec![AllocationEntry { id: *id, allocation: a.clone() }],
        });
    }
    let mut claims: Vec<ClaimTable> = Vec::new();
    for (id, c) in r.claims.iter() {
        claims.push(ClaimTable {
            key: vec![c.provider as u8],
            entries: vec![ClaimEntry { id: *id, claim: c.clone() }],
        });
    }
    StateSnapshot { verifiers, allocations, claims, next_allocation_id: r.next_allocation_id }
}

#[test]
fn full_lifecycle_of_one_allocation() {
    let policy = small_policy();
    let mut r = Registry::new(ROOT, policy);
    assert_eq!(r.add_verifier(ROOT, VERIFIER, 1024, 0), Ok(()));
    assert_eq!(r.verifiers.get(&VERIFIER), Some(&1024));

    assert_eq!(r.add_verified_client(VERIFIER, 1024), Ok(1024));
    assert_eq!(r.verifiers.get(&VERIFIER), Some(&0));

    let now = 1000;
    let out = r.allocate(CLIENT, 1024, &vec![request(1024, now + 100)], now, false).unwrap();
    assert_eq!(out.results, vec![true]);
    assert_eq!(out.allocation_ids, vec![0]);
    assert_eq!(out.burned, 0);
    assert!(r.allocations.contains_key(&0));

    let proof_epoch = now + 50;
    let claim = ClaimRequest {
        client: CLIENT,
        allocation_id: 0,
        data: vec![1, 2, 3, 4],
        size: 1024,
        sector: 7,
        sector_expiry: proof_epoch + MINIMUM_VERIFIED_ALLOCATION_TERM,
    };
    let out = r.claim_allocations(PROVIDER, &vec![claim], proof_epoch, false).unwrap();
    assert_eq!(out.results, vec![true]);
    assert_eq!(out.burned, 1024);
    assert!(!r.allocations.contains_key(&0));
    let c = r.claims.get(&0).unwrap();
    assert_eq!((c.provider, c.client, c.size, c.sector), (PROVIDER, CLIENT, 1024, 7));
    assert_eq!((c.term_min, c.term_max, c.term_start), (MINIMUM_VERIFIED_ALLOCATION_TERM, MAXIMUM_VERIFIED_ALLOCATION_TERM, proof_epoch));
    assert_eq!(c.data, vec![1, 2, 3, 4]);

    let (_, violations) = check_state_invariants(&snapshot_of(&r), &policy, proof_epoch);
    assert!(violations.is_empty(), "{:?}", violations);

    let later = proof_epoch + MAXIMUM_VERIFIED_ALLOCATION_TERM + 1;
    assert_eq!(r.remove_expired_claims(PROVIDER, &vec![0], later), vec![true]);
    assert!(r.claims.is_empty());
    assert_eq!(r.remove_expired_claims(PROVIDER, &vec![0], later), vec![false]);

    let (summary, violations) = check_state_invariants(&snapshot_of(&r), &policy, later);
    assert!(violations.is_empty(), "{:?}", violations);
    assert!(summary.allocations.is_empty() && summary.claims.is_empty());
    assert_eq!(summary.verifiers.len(), 1);
}

#[test]
fn expired_allocation_is_refunded_once() {
    let policy = small_policy();
    let mut r = Registry::new(ROOT, policy);
    let now = 5000;
    let out = r.allocate(CLIENT, 2048, &vec![request(2048, now - 1)], now, false).unwrap();
    assert_eq!(out.allocation_ids, vec![0]);

    let removal = r.remove_expired_allocations(CLIENT, &vec![0], now);
    assert_eq!(removal.results, vec![true]);
    assert_eq!(removal.refunded, 2048);
    assert!(r.allocations.is_empty());

    let again = r.remove_expired_allocations(CLIENT, &vec![0], now);
    assert_eq!(again.results, vec![false]);
    assert_eq!(again.refunded, 0);
}

#[test]
fn unexpired_or_foreign_allocation_is_kept() {
    let mut r = Registry::new(ROOT, small_policy());
    let now = 5000;
    r.allocate(CLIENT, 512, &vec![request(512, now + 10)], now, false).unwrap();
    let removal = r.remove_expired_allocations(CLIENT, &vec![0, 9], now);
    assert_eq!(removal.results, vec![false, false]);
    assert_eq!(removal.refunded, 0);
    let removal = r.remove_expired_allocations(CLIENT + 1, &vec![0], now + 11);
    assert_eq!(removal.results, vec![false]);
    assert!(r.allocations.contains_key(&0));
}

#[test]
fn verifier_management_errors() {
    let mut r = Registry::new(ROOT, small_policy());
    assert_eq!(r.add_verifier(VERIFIER, VERIFIER, 1024, 0), Err(RegistryError::Forbidden));
    assert_eq!(r.add_verifier(ROOT, VERIFIER, 255, 0), Err(RegistryError::AllowanceBelowMinimum));
    assert_eq!(r.add_verifier(ROOT, VERIFIER, 1024, 1), Err(RegistryError::VerifierHoldsDatacap));
    assert_eq!(r.remove_verifier(ROOT, VERIFIER), Err(RegistryError::VerifierNotFound));
    assert_eq!(r.add_verified_client(VERIFIER, 512), Err(RegistryError::Forbidden));
    assert_eq!(r.add_verifier(ROOT, VERIFIER, 1024, 0), Ok(()));
    assert_eq!(r.add_verifier(ROOT, VERIFIER, 600, 0), Ok(()));
    assert_eq!(r.verifiers.get(&VERIFIER), Some(&600));
    assert_eq!(r.add_verified_client(VERIFIER, 100), Err(RegistryError::AllowanceBelowMinimum));
    assert_eq!(r.add_verified_client(VERIFIER, 601), Err(RegistryError::InsufficientAllowance));
    assert_eq!(r.add_verified_client(VERIFIER, 300), Ok(300));
    assert_eq!(r.verifiers.get(&VERIFIER), Some(&300));
    assert_eq!(r.remove_verifier(CLIENT, VERIFIER), Err(RegistryError::Forbidden));
    assert_eq!(r.remove_verifier(ROOT, VERIFIER), Ok(()));
    assert!(r.verifiers.is_empty());
}

#[test]
fn allocation_batch_rules() {
    let mut r = Registry::new(ROOT, small_policy());
    let now = 100;
    let bad = request(100, now);
    let out = r.allocate(CLIENT, 1000, &vec![request(256, now), bad, request(300, now)], now, false).unwrap();
    assert_eq!(out.results, vec![true, false, true]);
    assert_eq!(out.allocation_ids, vec![0, 1]);
    assert_eq!(out.burned, 1000 - 556);
    assert_eq!(r.next_allocation_id, 2);

    let bad = request(100, now);
    assert_eq!(r.allocate(CLIENT, 1000, &vec![request(256, now), bad], now, true).err(), Some(RegistryError::BatchItemFailed));
    let bad = request(100, now);
    assert_eq!(r.allocate(CLIENT, 1000, &vec![bad], now, false).err(), Some(RegistryError::AllItemsFailed));
    assert_eq!(r.allocate(CLIENT, 300, &vec![request(256, now), request(256, now)], now, false).err(), Some(RegistryError::InsufficientTokens));
    let far = request(256, now + 172801);
    assert_eq!(r.allocate(CLIENT, 300, &vec![far], now, false).err(), Some(RegistryError::AllItemsFailed));
    assert_eq!(r.next_allocation_id, 2);
    assert_eq!(r.allocations.len(), 2);
}

#[test]
fn claim_batch_rules() {
    let mut r = Registry::new(ROOT, small_policy());
    let now = 100;
    r.allocate(CLIENT, 512, &vec![request(256, now + 10), request(256, now + 10)], now, false).unwrap();
    let good = |id: u64| ClaimRequest {
        client: CLIENT,
        allocation_id: id,
        data: vec![1, 2, 3, 4],
        size: 256,
        sector: 1,
        sector_expiry: now + MINIMUM_VERIFIED_ALLOCATION_TERM,
    };
    let mut wrong_data = good(1);
    wrong_data.data = vec![9];
    let mut too_short = good(1);
    too_short.sector_expiry = now + MINIMUM_VERIFIED_ALLOCATION_TERM - 1;
    let mut too_long = good(1);
    too_long.sector_expiry = now + MAXIMUM_VERIFIED_ALLOCATION_TERM + 1;
    assert_eq!(r.claim_allocations(PROVIDER, &vec![good(0), wrong_data], now, true).err(), Some(RegistryError::BatchItemFailed));
    assert!(r.claims.is_empty());
    let out = r.claim_allocations(PROVIDER, &vec![good(0), good(0), too_short, too_long], now, false).unwrap();
    assert_eq!(out.results, vec![true, false, false, false]);
    assert_eq!(out.burned, 256);
    assert_eq!(r.claim_allocations(PROVIDER + 1, &vec![good(1)], now, false).unwrap().results, vec![false]);
    assert_eq!(r.claim_allocations(PROVIDER, &vec![good(1)], now, false).unwrap().results, vec![true]);
    assert!(r.allocations.is_empty());
    assert_eq!(r.claims.len(), 2);
}

#[test]
fn extension_only_lengthens() {
    let mut r = Registry::new(ROOT, small_policy());
    let now = 100;
    r.allocate(CLIENT, 256, &vec![request(256, now + 10)], now, false).unwrap();
    let claim = ClaimRequest {
        client: CLIENT,
        allocation_id: 0,
        data: vec![1, 2, 3, 4],
        size: 256,
        sector: 1,
        sector_expiry: now + MINIMUM_VERIFIED_ALLOCATION_TERM,
    };
    r.claim_allocations(PROVIDER, &vec![claim], now, false).unwrap();
    let later = now + 1000;
    let term = |term_max: i64| ClaimTerm { provider: PROVIDER, claim_id: 0, term_max };
    let limit = later - now + MAXIMUM_VERIFIED_ALLOCATION_TERM;
    let results = r.extend_claim_terms(CLIENT, &vec![term(MAXIMUM_VERIFIED_ALLOCATION_TERM - 1), term(limit + 1), term(limit)], later);
    assert_eq!(results, vec![false, false, true]);
    assert_eq!(r.claims.get(&0).unwrap().term_max, limit);
    assert_eq!(r.extend_claim_terms(CLIENT + 1, &vec![term(limit)], later), vec![false]);
    assert_eq!(r.remove_expired_claims(PROVIDER, &vec![0], later), vec![false]);
    assert_eq!(r.remove_expired_claims(PROVIDER, &vec![0], now + limit + 1), vec![true]);
}

#[test]
fn standard_policy_values() {
    let p = Policy::standard();
    assert_eq!(p.minimum_allocation_size, 1 << 20);
    assert_eq!(p.minimum_allocation_term, 518400);
    assert_eq!(p.maximum_allocation_term, 5256000);
    assert_eq!(p.maximum_allocation_expiration, 172800);
    assert!(Policy::new(0, 1, 2, 3).is_none());
    assert!(Policy::new(1, 3, 2, 3).is_none());
    let _ = ClaimTerm { provider: 0, claim_id: 0, term_max: 0 };
}

#[test]
fn claims_are_looked_up_by_provider() {
    let mut r = Registry::new(ROOT, small_policy());
    let now = 100;
    r.allocate(CLIENT, 256, &vec![request(256, now + 10)], now, false).unwrap();
    let claim = ClaimRequest {
        client: CLIENT,
        allocation_id: 0,
        data: vec![1, 2, 3, 4],
        size: 256,
        sector: 4,
        sector_expiry: now + MINIMUM_VERIFIED_ALLOCATION_TERM,
    };
    r.claim_allocations(PROVIDER, &vec![claim], now, false).unwrap();
    let found = r.get_claims(PROVIDER, &vec![0, 1]);
    assert_eq!(found.len(), 2);
    let c = found[0].as_ref().unwrap();
    assert_eq!((c.client, c.size, c.sector, c.term_start), (CLIENT, 256, 4, now));
    assert_eq!(c.data, vec![1, 2, 3, 4]);
    assert!(found[1].is_none());
    assert!(r.get_claims(PROVIDER + 1, &vec![0])[0].is_none());
}

#[test]
fn token_amounts_scale_by_precision() {
    assert_eq!(tokens_of(1024), Some(1024 * 1_000_000_000_000_000_000));
    assert_eq!(tokens_of(0), Some(0));
    assert_eq!(tokens_of(u128::MAX / TOKEN_PRECISION + 1), None);
}
