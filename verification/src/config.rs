//! The per-invocation configuration: RPC URL, output directory, network
//! type, path of the chain-metadata file, and target chain id.

use vstd::prelude::*;
use vstd::string::*;
use crate::errors::GovernanceError;
use crate::network::{
    spec_network_type, network_type_for_url, spec_chains_info_file_name, chains_info_file_name,
    AxelarNetwork, NetworkType,
};

verus! {

/// The path of the chain-metadata file: the metadata directory joined
/// with the file name that belongs to the Axelar network.
pub open spec fn spec_chains_info_path(dir: Seq<char>, network: AxelarNetwork) -> Seq<char> {
    dir + "/"@ + spec_chains_info_file_name(network)
}

/// Everything an invocation needs to know about its target. Immutable
/// after construction; constructed once per invocation.
#[derive(Debug)]
pub struct Config {
    /// The RPC URL of the target cluster.
    pub url: String,
    /// The directory the transaction files are written into. The caller
    /// must have ensured that it exists and is a directory.
    pub output_dir: String,
    /// The network type derived from `url`.
    pub network_type: NetworkType,
    /// The path of the chain-metadata document.
    pub chains_info_file: String,
    /// The chain id whose metadata the invocation may update.
    pub chain_id: String,
}

impl Config {
    /// Build a configuration. Fails exactly when the URL matches none of
    /// the recognised network patterns; the chain-metadata path is fully
    /// determined by the metadata directory and the Axelar network.
    pub fn new(
        url: String,
        output_dir: String,
        chains_info_dir: String,
        axelar_network: AxelarNetwork,
        chain_id: String,
    ) -> (r: Result<Config, GovernanceError>)
        ensures
            r is Ok <==> spec_network_type(url@) is Some,
            r is Err ==> r->Err_0 == GovernanceError::UnrecognizedNetworkUrl,
            r is Ok ==> ({
                let c = r->Ok_0;
                &&& c.url@ == url@
                &&& c.output_dir@ == output_dir@
                &&& Some(c.network_type) == spec_network_type(url@)
                &&& c.chains_info_file@ == spec_chains_info_path(chains_info_dir@, axelar_network)
                &&& c.chain_id@ == chain_id@
            }),
    {
        let network_type = match network_type_for_url(url.as_str()) {
            Some(t) => t,
            None => {
                return Err(GovernanceError::UnrecognizedNetworkUrl);
            },
        };
        let file_name = chains_info_file_name(axelar_network);
        let mut chains_info_file = chains_info_dir;
        chains_info_file.append("/");
        chains_info_file.append(file_name.as_str());
        Ok(Config { url, output_dir, network_type, chains_info_file, chain_id })
    }
}

} // verus!
