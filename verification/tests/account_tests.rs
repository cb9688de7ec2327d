use solana_governance_cli::accounts::parse_account_permission;
use std::str::FromStr;
use solana_governance_cli::errors::GovernanceError;

#[test]
fn parse_valid_permission() {
    let p = parse_account_permission("11111111111111111111111111111111:true:false").unwrap();
    assert_eq!(p.address, "11111111111111111111111111111111");
    assert!(p.is_signer);
    assert!(!p.is_writable);
}

#[test]
fn parse_valid_permission_writable() {
    let p = parse_account_permission("11111111111111111111111111111111:false:true").unwrap();
    assert!(!p.is_signer);
    assert!(p.is_writable);
}

#[test]
fn parse_rejects_missing_fields() {
    let r = parse_account_permission("11111111111111111111111111111111:true");
    assert_eq!(r.unwrap_err(), GovernanceError::AccountPermissionFormat);
    let r = parse_account_permission("11111111111111111111111111111111");
    assert_eq!(r.unwrap_err(), GovernanceError::AccountPermissionFormat);
}

#[test]
fn parse_rejects_extra_fields() {
    let r = parse_account_permission("11111111111111111111111111111111:true:false:true");
    assert_eq!(r.unwrap_err(), GovernanceError::AccountPermissionFormat);
}

#[test]
fn parse_rejects_bad_flag() {
    let r = parse_account_permission("11111111111111111111111111111111:yes:false");
    assert_eq!(r.unwrap_err(), GovernanceError::AccountPermissionFlag);
    let r = parse_account_permission("11111111111111111111111111111111:true:0");
    assert_eq!(r.unwrap_err(), GovernanceError::AccountPermissionFlag);
}

#[test]
fn parse_rejects_bad_address() {
    // Valid shape, but the first field is no base58 public key.
    let r = parse_account_permission("notakey:true:false");
    assert_eq!(r.unwrap_err(), GovernanceError::AccountPermissionAddress);
    let r = parse_account_permission("IIII:true:false");
    assert_eq!(r.unwrap_err(), GovernanceError::AccountPermissionAddress);
}

#[test]
fn parse_address_roundtrips_through_solana() {
    let key = solana_sdk::pubkey::Pubkey::new_unique().to_string();
    let text = format!("{}:true:true", key);
    let p = parse_account_permission(&text).unwrap();
    assert_eq!(p.address, key);
    let parsed = solana_sdk::pubkey::Pubkey::from_str(&p.address).unwrap();
    assert_eq!(parsed.to_string(), key);
}
