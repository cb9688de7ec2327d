use solana_governance_cli::network::{network_type_for_url, NetworkType};
use solana_governance_cli::text::{contains_str, str_equal};

#[test]
fn contains_finds_patterns() {
    assert!(contains_str("https://api.devnet.solana.com", "devnet"));
    assert!(contains_str("devnet", "devnet"));
    assert!(contains_str("xdevnet", "devnet"));
    assert!(contains_str("anything", ""));
    assert!(!contains_str("", "devnet"));
    assert!(!contains_str("https://api.devnet.solana.com", "mainnet"));
    assert!(!contains_str("devne", "devnet"));
}

#[test]
fn str_equal_compares_text() {
    assert!(str_equal("", ""));
    assert!(str_equal("true", "true"));
    assert!(!str_equal("true", "false"));
    assert!(!str_equal("true", "tru"));
    assert!(!str_equal("tru", "true"));
}

#[test]
fn mainnet_takes_precedence() {
    // Classification follows a fixed order: the mainnet pattern decides
    // even when another pattern also occurs in the URL.
    let t = network_type_for_url("https://mainnet.rpc.example/devnet");
    assert_eq!(t, Some(NetworkType::Mainnet));
    let t = network_type_for_url("https://testnet.rpc.example/devnet");
    assert_eq!(t, Some(NetworkType::Testnet));
}
