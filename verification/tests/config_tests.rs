use solana_governance_cli::config::Config;
use solana_governance_cli::errors::GovernanceError;
use solana_governance_cli::network::{chains_info_file_name, network_type_for_url, AxelarNetwork, NetworkType};

#[test]
fn classify_mainnet_url() {
    let t = network_type_for_url("https://api.mainnet-beta.solana.com");
    assert_eq!(t, Some(NetworkType::Mainnet));
}

#[test]
fn classify_testnet_url() {
    let t = network_type_for_url("https://api.testnet.solana.com");
    assert_eq!(t, Some(NetworkType::Testnet));
}

#[test]
fn classify_devnet_url() {
    let t = network_type_for_url("https://api.devnet.solana.com");
    assert_eq!(t, Some(NetworkType::Devnet));
}

#[test]
fn classify_localhost_url() {
    assert_eq!(network_type_for_url("http://localhost:8899"), Some(NetworkType::Localnet));
    assert_eq!(network_type_for_url("http://127.0.0.1:8899"), Some(NetworkType::Localnet));
}

#[test]
fn classify_unrecognized_url_fails() {
    assert_eq!(network_type_for_url("https://rpc.example.com"), None);
    assert_eq!(network_type_for_url(""), None);
}

#[test]
fn classification_is_deterministic() {
    let url = "https://api.devnet.solana.com";
    let first = network_type_for_url(url);
    let second = network_type_for_url(url);
    assert_eq!(first, second);
}

#[test]
fn chains_info_file_names() {
    assert_eq!(chains_info_file_name(AxelarNetwork::Mainnet), "mainnet.json");
    assert_eq!(chains_info_file_name(AxelarNetwork::Testnet), "testnet.json");
    assert_eq!(chains_info_file_name(AxelarNetwork::Stagenet), "stagenet.json");
    assert_eq!(
        chains_info_file_name(AxelarNetwork::DevnetAmplifier),
        "devnet-amplifier.json"
    );
}

#[test]
fn config_new_fills_every_field() {
    let config = Config::new(
        String::from("https://api.devnet.solana.com"),
        String::from("out"),
        String::from("info"),
        AxelarNetwork::DevnetAmplifier,
        String::from("solana-devnet"),
    )
    .unwrap();
    assert_eq!(config.url, "https://api.devnet.solana.com");
    assert_eq!(config.output_dir, "out");
    assert_eq!(config.network_type, NetworkType::Devnet);
    assert_eq!(config.chains_info_file, "info/devnet-amplifier.json");
    assert_eq!(config.chain_id, "solana-devnet");
}

#[test]
fn config_new_rejects_unrecognized_url() {
    let r = Config::new(
        String::from("https://rpc.example.com"),
        String::from("out"),
        String::from("info"),
        AxelarNetwork::Mainnet,
        String::from("solana"),
    );
    assert_eq!(r.unwrap_err(), GovernanceError::UnrecognizedNetworkUrl);
}
