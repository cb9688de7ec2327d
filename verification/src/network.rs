//! Classification of an RPC URL into a network type, and the name of the
//! chain-metadata file that belongs to each Axelar network.

use vstd::prelude::*;
use vstd::string::*;
use crate::text::{contains_pattern, contains_str};

verus! {

/// The kind of Solana cluster an RPC URL points at.
#[derive(Clone, Copy, Debug, PartialEq, Eq, Structural)]
pub enum NetworkType {
    Mainnet,
    Testnet,
    Devnet,
    Localnet,
}

/// The Axelar network whose chain-metadata document is read and updated.
#[derive(Clone, Copy, Debug, PartialEq, Eq, Structural)]
pub enum AxelarNetwork {
    Mainnet,
    Testnet,
    Stagenet,
    DevnetAmplifier,
}

/// What network type a URL is classified as: the first of the patterns
/// `mainnet`, `testnet`, `devnet`, `localhost`/`127.0.0.1` that occurs in
/// it decides; a URL with none of them is not classified.
pub open spec fn spec_network_type(url: Seq<char>) -> Option<NetworkType> {
    if contains_pattern(url, "mainnet"@) {
        Some(NetworkType::Mainnet)
    } else if contains_pattern(url, "testnet"@) {
        Some(NetworkType::Testnet)
    } else if contains_pattern(url, "devnet"@) {
        Some(NetworkType::Devnet)
    } else if contains_pattern(url, "localhost"@) || contains_pattern(url, "127.0.0.1"@) {
        Some(NetworkType::Localnet)
    } else {
        None
    }
}

/// Classify an RPC URL; `None` means the URL is unrecognised.
pub fn network_type_for_url(url: &str) -> (r: Option<NetworkType>)
    ensures
        r == spec_network_type(url@),
{
    if contains_str(url, "mainnet") {
        Some(NetworkType::Mainnet)
    } else if contains_str(url, "testnet") {
        Some(NetworkType::Testnet)
    } else if contains_str(url, "devnet") {
        Some(NetworkType::Devnet)
    } else if contains_str(url, "localhost") || contains_str(url, "127.0.0.1") {
        Some(NetworkType::Localnet)
    } else {
        None
    }
}

/// The file name of the chain-metadata document for an Axelar network.
pub open spec fn spec_chains_info_file_name(network: AxelarNetwork) -> Seq<char> {
    match network {
        AxelarNetwork::Mainnet => "mainnet.json"@,
        AxelarNetwork::Testnet => "testnet.json"@,
        AxelarNetwork::Stagenet => "stagenet.json"@,
        AxelarNetwork::DevnetAmplifier => "devnet-amplifier.json"@,
    }
}

/// The file name of the chain-metadata document for an Axelar network.
pub fn chains_info_file_name(network: AxelarNetwork) -> (r: String)
    ensures
        r@ == spec_chains_info_file_name(network),
{
    match network {
        AxelarNetwork::Mainnet => String::from_str("mainnet.json"),
        AxelarNetwork::Testnet => String::from_str("testnet.json"),
        AxelarNetwork::Stagenet => String::from_str("stagenet.json"),
        AxelarNetwork::DevnetAmplifier => String::from_str("devnet-amplifier.json"),
    }
}

/// Law: network classification is a total function of the URL's text alone.
/// Every URL is either classified — and which pattern occurs in it decides
/// the type, in a fixed order of precedence — or rejected, exactly when
/// none of the recognised patterns occurs in it.
pub proof fn lemma_network_classification_total(url: Seq<char>)
    ensures
        (spec_network_type(url) is None) <==> (!contains_pattern(url, "mainnet"@)
            && !contains_pattern(url, "testnet"@) && !contains_pattern(url, "devnet"@)
            && !contains_pattern(url, "localhost"@) && !contains_pattern(url, "127.0.0.1"@)),
        contains_pattern(url, "mainnet"@) ==> spec_network_type(url) == Some(
            NetworkType::Mainnet,
        ),
        spec_network_type(url) == Some(NetworkType::Localnet) ==> (contains_pattern(
            url,
            "localhost"@,
        ) || contains_pattern(url, "127.0.0.1"@)),
{
}

} // verus!
