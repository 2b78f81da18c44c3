//! Project configuration: the values persisted in a project's configuration
//! file and the deployment lock.  Reading and writing these as JSON happens
//! outside the library; here live the data model, the defaults, and the
//! network-name rules.

use vstd::prelude::*;
use vstd::string::StringSliceAdditionalSpecFns;
use vstd::string::StrSliceExecFns;
use vstd::string::StringExecFns;

verus! {

/// One RPC endpoint.
pub struct NetworkEndpoint {
    pub rpc: String,
}

/// The known networks and which one is the default.
pub struct NetworkConfig {
    pub default: String,
    pub devnet: NetworkEndpoint,
    pub testnet: NetworkEndpoint,
    pub mainnet: Option<NetworkEndpoint>,
}

/// Build settings.
pub struct BuildConfig {
    pub output_dir: String,
    pub skip_fetch_latest_git_deps: bool,
}

/// Deployment settings.
pub struct DeployConfig {
    pub gas_object_selection: String,
    pub gas_budget: u64,
}

/// One SDK-generation target.
pub struct CodegenTarget {
    pub output_dir: String,
}

/// SDK-generation settings per language.
pub struct CodegenConfig {
    pub typescript: Option<CodegenTarget>,
    pub rust: Option<CodegenTarget>,
    pub swift: Option<CodegenTarget>,
}

/// The whole project configuration.
pub struct SuiForgeConfig {
    pub network: NetworkConfig,
    pub build: BuildConfig,
    pub deploy: DeployConfig,
    pub codegen: CodegenConfig,
}

/// What a deployment leaves behind: the published package and its context.
pub struct DeploymentLock {
    pub package_id: String,
    pub object_ids: Vec<String>,
    pub network: String,
    pub timestamp: String,
    pub digest: String,
}

impl DeploymentLock {
    /// The lock written right after publishing: no object ids and no digest
    /// are recorded yet.
    pub fn new(package_id: String, network: String, timestamp: String) -> (r: DeploymentLock)
        ensures
            r.package_id@ == package_id@,
            r.network@ == network@,
            r.timestamp@ == timestamp@,
            r.object_ids@.len() == 0,
            r.digest@.len() == 0,
    {
        DeploymentLock {
            package_id,
            object_ids: Vec::new(),
            network,
            timestamp,
            digest: String::new(),
        }
    }
}

impl SuiForgeConfig {
    /// The configuration a fresh project starts with.
    pub fn default() -> (r: SuiForgeConfig)
        ensures
            r.network.default@ == "devnet"@,
            r.network.devnet.rpc@ == "https://fullnode.devnet.sui.io:443"@,
            r.network.testnet.rpc@ == "https://fullnode.testnet.sui.io:443"@,
            r.network.mainnet matches Some(m) && m.rpc@ == "https://fullnode.mainnet.sui.io:443"@,
            r.build.output_dir@ == "build"@,
            r.build.skip_fetch_latest_git_deps == false,
            r.deploy.gas_object_selection@ == "auto"@,
            r.deploy.gas_budget == 50000000u64,
            r.codegen.typescript matches Some(t) && t.output_dir@ == "./sdk/typescript"@,
            r.codegen.rust matches Some(t) && t.output_dir@ == "./sdk/rust"@,
            r.codegen.swift matches Some(t) && t.output_dir@ == "./sdk/swift"@,
    {
        SuiForgeConfig {
            network: NetworkConfig {
                default: String::from_str("devnet"),
                devnet: NetworkEndpoint {
                    rpc: String::from_str("https://fullnode.devnet.sui.io:443"),
                },
                testnet: NetworkEndpoint {
                    rpc: String::from_str("https://fullnode.testnet.sui.io:443"),
                },
                mainnet: Some(
                    NetworkEndpoint {
                        rpc: String::from_str("https://fullnode.mainnet.sui.io:443"),
                    },
                ),
            },
            build: BuildConfig {
                output_dir: String::from_str("build"),
                skip_fetch_latest_git_deps: false,
            },
            deploy: DeployConfig {
                gas_object_selection: String::from_str("auto"),
                gas_budget: 50000000,
            },
            codegen: CodegenConfig {
                typescript: Some(CodegenTarget { output_dir: String::from_str("./sdk/typescript") }),
                rust: Some(CodegenTarget { output_dir: String::from_str("./sdk/rust") }),
                swift: Some(CodegenTarget { output_dir: String::from_str("./sdk/swift") }),
            },
        }
    }
}

/// The RPC endpoint a network name selects: the three known networks map to
/// their public fullnode endpoints, anything else to nothing.
pub open spec fn spec_rpc_url(network: Seq<u8>) -> Option<Seq<char>> {
    if network == "devnet".spec_bytes() {
        Some("https://fullnode.devnet.sui.io:443"@)
    } else if network == "testnet".spec_bytes() {
        Some("https://fullnode.testnet.sui.io:443"@)
    } else if network == "mainnet".spec_bytes() {
        Some("https://fullnode.mainnet.sui.io:443"@)
    } else {
        None
    }
}

/// A deployment accepts exactly the three known network names.
pub open spec fn spec_valid_network(network: Seq<u8>) -> bool {
    spec_rpc_url(network) is Some
}

/// The RPC endpoint of a network name, or `None` for an unknown name.
pub fn network_rpc_url(network: &str) -> (r: Option<String>)
    ensures
        (r is Some) == (spec_rpc_url(network.spec_bytes()) is Some),
        r matches Some(u) ==> spec_rpc_url(network.spec_bytes()) == Some(u@),
{
    let b = network.as_bytes_vec();
    if crate::text::bytes_eq(&b, &crate::text::marker("devnet")) {
        Some(String::from_str("https://fullnode.devnet.sui.io:443"))
    } else if crate::text::bytes_eq(&b, &crate::text::marker("testnet")) {
        Some(String::from_str("https://fullnode.testnet.sui.io:443"))
    } else if crate::text::bytes_eq(&b, &crate::text::marker("mainnet")) {
        Some(String::from_str("https://fullnode.mainnet.sui.io:443"))
    } else {
        None
    }
}

/// Whether a network name is one of the three a deployment accepts.
pub fn valid_network(network: &str) -> (r: bool)
    ensures
        r == spec_valid_network(network.spec_bytes()),
{
    network_rpc_url(network).is_some()
}

/// Accept a known network name, or reject the offending input: the check a
/// deployment performs before anything else.
pub fn validate_network(network: &str) -> (r: Result<(), crate::error::SuiForgeError>)
    ensures
        spec_valid_network(network.spec_bytes()) ==> r is Ok,
        !spec_valid_network(network.spec_bytes()) ==> (r matches Err(
            crate::error::SuiForgeError::InvalidNetwork(m),
        ) && m@ == network@),
{
    if valid_network(network) {
        Ok(())
    } else {
        Err(crate::error::SuiForgeError::InvalidNetwork(String::from_str(network)))
    }
}

} // verus!
