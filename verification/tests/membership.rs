use dao_governance::identity::Pubkey;
use dao_governance::membership::initialize;
use dao_governance::membership::MemberType;
use dao_governance::membership::RegistryLedger;

#[test]
fn initialize_registry_starts_empty() {
    let registry = initialize(Pubkey::new(5));
    assert_eq!(registry.authority, Pubkey::new(5));
    assert_eq!(registry.member_count, 0);
}

#[test]
fn jane_doe_registration() {
    let mut ledger = RegistryLedger::init_registry(Pubkey::new(5));
    assert_eq!(ledger.registry.member_count, 0);
    let index = ledger.add_member(
        Pubkey::new(6),
        MemberType::Human,
        100,
        "Jane Doe".to_string(),
        "123 Main St".to_string(),
        "123-45-6789".to_string(),
        1_700_000_100,
    );
    assert_eq!(ledger.registry.member_count, 1);
    let member = &ledger.members[index];
    assert_eq!(member.pubkey, Pubkey::new(6));
    assert_eq!(member.member_type, MemberType::Human);
    assert_eq!(member.voting_power, 100);
    assert_eq!(member.joined_at, 1_700_000_100);
    assert!(member.is_active);
    assert!(!member.kyc_verified);
    assert_eq!(member.legal_name, "Jane Doe");
    assert_eq!(member.address, "123 Main St");
    assert_eq!(member.tax_id, "123-45-6789");
}

#[test]
fn member_count_increments_by_one_per_registration() {
    let mut ledger = RegistryLedger::init_registry(Pubkey::new(5));
    ledger.add_member(
        Pubkey::new(6),
        MemberType::AI,
        1,
        "Agent".to_string(),
        "In memory".to_string(),
        "00-0000000".to_string(),
        10,
    );
    assert_eq!(ledger.registry.member_count, 1);
    ledger.add_member(
        Pubkey::new(7),
        MemberType::Organization,
        50,
        "Acme LLC".to_string(),
        "1 Acme Rd".to_string(),
        "98-7654321".to_string(),
        11,
    );
    assert_eq!(ledger.registry.member_count, 2);
    assert_eq!(ledger.members.len(), 2);
    assert_eq!(ledger.members[0].member_type, MemberType::AI);
    assert_eq!(ledger.members[1].member_type, MemberType::Organization);
}

#[test]
fn duplicate_identity_is_permitted() {
    // No duplicate-member check exists: registering the same identity twice
    // simply commits two records, faithfully to the permissive design.
    let mut ledger = RegistryLedger::init_registry(Pubkey::new(5));
    for joined_at in [20, 21] {
        ledger.add_member(
            Pubkey::new(8),
            MemberType::Human,
            10,
            "Twice".to_string(),
            "Same place".to_string(),
            "11-1111111".to_string(),
            joined_at,
        );
    }
    assert_eq!(ledger.registry.member_count, 2);
    assert_eq!(ledger.members[0].pubkey, ledger.members[1].pubkey);
}
