use solana_governance_cli::metadata::{ChainsInfo, GovernanceEntry};

fn entry(delay: u32, operator: &str) -> GovernanceEntry {
    GovernanceEntry::new(
        String::from("GovernanceProgram1111111111111111111111111"),
        String::from("ConfigAccount111111111111111111111111111111"),
        String::from("0xAbC0000000000000000000000000000000000000"),
        String::from("ethereum"),
        delay,
        String::from(operator),
        String::from("Authority1111111111111111111111111111111111"),
    )
}

#[test]
fn entry_records_every_field() {
    let e = entry(600, "Operator1111111111111111111111111111111111");
    assert_eq!(e.address, "GovernanceProgram1111111111111111111111111");
    assert_eq!(e.config_account, "ConfigAccount111111111111111111111111111111");
    assert_eq!(e.governance_address, "0xAbC0000000000000000000000000000000000000");
    assert_eq!(e.governance_chain, "ethereum");
    assert_eq!(e.minimum_proposal_eta_delay, 600);
    assert_eq!(e.operator, "Operator1111111111111111111111111111111111");
    assert_eq!(e.upgrade_authority, "Authority1111111111111111111111111111111111");
}

#[test]
fn set_governance_inserts_a_chain() {
    let mut info = ChainsInfo::new();
    assert_eq!(info.chain_count(), 0);
    info.set_governance(String::from("solana-devnet"), entry(600, "OpA"));
    assert_eq!(info.chain_count(), 1);
    let got = info.get(&String::from("solana-devnet")).unwrap();
    assert_eq!(got.minimum_proposal_eta_delay, 600);
    assert_eq!(got.operator, "OpA");
}

#[test]
fn set_governance_overwrites_not_duplicates() {
    let mut info = ChainsInfo::new();
    info.set_governance(String::from("solana-devnet"), entry(600, "OpA"));
    info.set_governance(String::from("solana-devnet"), entry(900, "OpB"));
    assert_eq!(info.chain_count(), 1);
    let got = info.get(&String::from("solana-devnet")).unwrap();
    assert_eq!(got.minimum_proposal_eta_delay, 900);
    assert_eq!(got.operator, "OpB");
}

#[test]
fn set_governance_preserves_other_chains() {
    let mut info = ChainsInfo::new();
    info.set_governance(String::from("solana-devnet"), entry(600, "OpA"));
    info.set_governance(String::from("solana-mainnet"), entry(1200, "OpC"));
    info.set_governance(String::from("solana-devnet"), entry(900, "OpB"));
    assert_eq!(info.chain_count(), 2);
    let other = info.get(&String::from("solana-mainnet")).unwrap();
    assert_eq!(other.minimum_proposal_eta_delay, 1200);
    assert_eq!(other.operator, "OpC");
    let updated = info.get(&String::from("solana-devnet")).unwrap();
    assert_eq!(updated.minimum_proposal_eta_delay, 900);
}

#[test]
fn get_missing_chain_is_none() {
    let info = ChainsInfo::new();
    assert!(info.get(&String::from("absent")).is_none());
}
