use verifreg::checker::{
    check_allocation_state, check_claim_state, check_state_invariants, AllocationEntry,
    AllocationTable, ClaimEntry, ClaimTable, StateSnapshot, VerifierEntry, Violation,
};
use verifreg::types::{Allocation, Claim, Policy};

fn policy() -> Policy {
    Policy::standard()
}

fn good_allocation(client: u64) -> Allocation {
    Allocation {
        client,
        provider: 9,
        data: vec![7, 7],
        size: 1 << 20,
        term_min: 518400,
        term_max: 5256000,
        expiration: 100,
    }
}

fn good_claim(provider: u64) -> Claim {
    Claim {
        provider,
        client: 5,
        data: vec![7, 7],
        size: 1 << 20,
        term_min: 518400,
        term_max: 600000,
        term_start: 10,
        sector: 3,
    }
}

#[test]
fn allocation_rules_each_reported() {
    let mut acc = Vec::new();
    check_allocation_state(3, &good_allocation(5), 5, 4, 0, &policy(), &mut acc);
    assert!(acc.is_empty());

    let bad = Allocation {
        client: 6,
        provider: 9,
        data: vec![],
        size: 1024,
        term_min: 10,
        term_max: 6000000,
        expiration: 172801,
    };
    check_allocation_state(4, &bad, 5, 4, 0, &policy(), &mut acc);
    assert_eq!(
        acc,
        vec![
            Violation::AllocationIdTooLarge { id: 4, next: 4 },
            Violation::AllocationClientMismatch { id: 4, client: 6, key: 5 },
            Violation::AllocationSizeTooSmall { id: 4, size: 1024 },
            Violation::AllocationTermMinTooSmall { id: 4, term_min: 10 },
            Violation::AllocationTermMaxTooLarge { id: 4, term_max: 6000000 },
            Violation::AllocationExpirationTooFar { id: 4, expiration: 172801, now: 0 },
        ]
    );

    let mut acc = Vec::new();
    let mut inverted = good_allocation(5);
    inverted.term_min = 600000;
    inverted.term_max = 550000;
    check_allocation_state(1, &inverted, 5, 4, 0, &policy(), &mut acc);
    assert_eq!(acc, vec![Violation::AllocationTermMinExceedsMax { id: 1, term_min: 600000, term_max: 550000 }]);
}

#[test]
fn claim_rules_each_reported() {
    let mut acc = Vec::new();
    check_claim_state(2, &good_claim(8), 8, 3, 10, &policy(), &mut acc);
    assert!(acc.is_empty());

    let mut bad = good_claim(9);
    bad.size = 1;
    bad.term_min = 1;
    bad.term_max = 0;
    bad.term_start = 11;
    check_claim_state(3, &bad, 8, 3, 10, &policy(), &mut acc);
    assert_eq!(
        acc,
        vec![
            Violation::ClaimIdTooLarge { id: 3, next: 3 },
            Violation::ClaimProviderMismatch { id: 3, provider: 9, key: 8 },
            Violation::ClaimSizeTooSmall { id: 3, size: 1 },
            Violation::ClaimTermMinTooSmall { id: 3, term_min: 1 },
            Violation::ClaimTermMinExceedsMax { id: 3, term_min: 1, term_max: 0 },
            Violation::ClaimStartsAfterNow { id: 3, term_start: 11, now: 10 },
        ]
    );
}

#[test]
fn claim_term_max_has_no_upper_bound() {
    let mut acc = Vec::new();
    let mut long = good_claim(8);
    long.term_max = 1 << 40;
    check_claim_state(0, &long, 8, 1, 10, &policy(), &mut acc);
    assert!(acc.is_empty());
}

#[test]
fn whole_state_is_audited() {
    let mut secp_key = vec![1u8];
    secp_key.extend_from_slice(&[0u8; 20]);
    let snapshot = StateSnapshot {
        verifiers: vec![
            VerifierEntry { key: vec![0, 100], cap: 5 },
            VerifierEntry { key: secp_key, cap: -1 },
            VerifierEntry { key: vec![9, 1], cap: 0 },
        ],
        allocations: vec![
            AllocationTable { key: vec![5], entries: vec![AllocationEntry { id: 0, allocation: good_allocation(5) }] },
            AllocationTable { key: vec![0x80], entries: vec![AllocationEntry { id: 1, allocation: good_allocation(1) }] },
            AllocationTable { key: vec![6], entries: vec![AllocationEntry { id: 2, allocation: good_allocation(5) }] },
        ],
        claims: vec![
            ClaimTable { key: vec![], entries: vec![] },
            ClaimTable {
                key: vec![0x81, 0x01],
                entries: vec![ClaimEntry { id: 3, claim: good_claim(129) }, ClaimEntry { id: 9, claim: good_claim(129) }],
            },
        ],
        next_allocation_id: 4,
    };
    let (summary, violations) = check_state_invariants(&snapshot, &policy(), 10);
    assert_eq!(
        violations,
        vec![
            Violation::VerifierNotIdAddress { index: 1 },
            Violation::VerifierCapNegative { index: 1, cap: -1 },
            Violation::VerifierNotIdAddress { index: 2 },
            Violation::AllocationKeyUndecodable { index: 1 },
            Violation::AllocationClientMismatch { id: 2, client: 5, key: 6 },
            Violation::ClaimKeyUndecodable { index: 0 },
            Violation::ClaimIdTooLarge { id: 9, next: 4 },
        ]
    );
    assert_eq!(summary.verifiers.len(), 3);
    assert_eq!(summary.verifiers[1].cap, -1);
    let ids: Vec<u64> = summary.allocations.iter().map(|e| e.id).collect();
    assert_eq!(ids, vec![0, 1, 2]);
    assert_eq!(summary.allocations[1].allocation.client, 1);
    assert_eq!(summary.allocations[1].allocation.data, vec![7, 7]);
    let ids: Vec<u64> = summary.claims.iter().map(|e| e.id).collect();
    assert_eq!(ids, vec![3, 9]);
    assert_eq!(summary.claims[0].claim.provider, 129);
}

#[test]
fn empty_state_has_no_violations() {
    let snapshot = StateSnapshot { verifiers: vec![], allocations: vec![], claims: vec![], next_allocation_id: 0 };
    let (summary, violations) = check_state_invariants(&snapshot, &policy(), 0);
    assert!(violations.is_empty());
    assert!(summary.verifiers.is_empty() && summary.allocations.is_empty() && summary.claims.is_empty());
}
