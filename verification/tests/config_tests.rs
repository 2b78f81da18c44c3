use suiforge::config::{
    network_rpc_url, valid_network, validate_network, DeployConfig, DeploymentLock,
    SuiForgeConfig,
};
use suiforge::error::SuiForgeError;
use suiforge::deploy::{effective_gas_budget, extract_package_id};
use suiforge::profiles::ProfileConfig;

#[test]
fn default_config_values() {
    let c = SuiForgeConfig::default();
    assert_eq!(c.network.default, "devnet");
    assert_eq!(c.network.devnet.rpc, "https://fullnode.devnet.sui.io:443");
    assert_eq!(c.network.testnet.rpc, "https://fullnode.testnet.sui.io:443");
    assert_eq!(
        c.network.mainnet.unwrap().rpc,
        "https://fullnode.mainnet.sui.io:443"
    );
    assert_eq!(c.build.output_dir, "build");
    assert!(!c.build.skip_fetch_latest_git_deps);
    assert_eq!(c.deploy.gas_object_selection, "auto");
    assert_eq!(c.deploy.gas_budget, 50_000_000);
    assert_eq!(c.codegen.typescript.unwrap().output_dir, "./sdk/typescript");
    assert_eq!(c.codegen.rust.unwrap().output_dir, "./sdk/rust");
    assert_eq!(c.codegen.swift.unwrap().output_dir, "./sdk/swift");
}

#[test]
fn network_names_map_to_endpoints() {
    assert_eq!(
        network_rpc_url("devnet").unwrap(),
        "https://fullnode.devnet.sui.io:443"
    );
    assert_eq!(
        network_rpc_url("testnet").unwrap(),
        "https://fullnode.testnet.sui.io:443"
    );
    assert_eq!(
        network_rpc_url("mainnet").unwrap(),
        "https://fullnode.mainnet.sui.io:443"
    );
    assert!(network_rpc_url("localnet").is_none());
    assert!(valid_network("devnet"));
    assert!(!valid_network("Devnet"));
    assert!(validate_network("testnet").is_ok());
    match validate_network("localnet") {
        Err(SuiForgeError::InvalidNetwork(name)) => assert_eq!(name, "localnet"),
        other => panic!("expected an invalid-network error, got ok={}", other.is_ok()),
    }
}

#[test]
fn gas_budget_prefers_the_request() {
    let cfg = DeployConfig {
        gas_object_selection: "auto".to_string(),
        gas_budget: 50_000_000,
    };
    assert_eq!(effective_gas_budget(Some(7), &cfg), 7);
    assert_eq!(effective_gas_budget(None, &cfg), 50_000_000);
}

#[test]
fn package_id_extraction() {
    let output = "building...\nPackage ID: 0x5\ndone\n";
    assert_eq!(extract_package_id(output), Some("0x...".to_string()));
    let camel = "{\"packageId\": \"0x5\"}\n";
    assert_eq!(extract_package_id(camel), Some("0x...".to_string()));
    assert_eq!(extract_package_id("nothing to see\n"), None);
}

#[test]
fn deployment_lock_starts_empty() {
    let lock = DeploymentLock::new(
        "0xabc".to_string(),
        "devnet".to_string(),
        "2024-01-01T00:00:00Z".to_string(),
    );
    assert_eq!(lock.package_id, "0xabc");
    assert_eq!(lock.network, "devnet");
    assert_eq!(lock.timestamp, "2024-01-01T00:00:00Z");
    assert!(lock.object_ids.is_empty());
    assert!(lock.digest.is_empty());
}

#[test]
fn default_profiles_hold_the_three_networks() {
    let p = ProfileConfig::default();
    assert_eq!(p.active, "devnet");
    assert_eq!(p.profiles.len(), 3);
    assert_eq!(p.profiles[0].name, "devnet");
    assert_eq!(
        p.profiles[0].faucet.as_deref(),
        Some("https://faucet.devnet.sui.io/gas")
    );
    assert_eq!(p.profiles[1].name, "testnet");
    assert_eq!(p.profiles[2].name, "mainnet");
    assert!(p.profiles[2].faucet.is_none());
    assert_eq!(
        p.profiles[2].explorer.as_deref(),
        Some("https://suiexplorer.com/?network=mainnet")
    );
}

#[test]
fn profile_operations_keep_names_unique() {
    let mut p = ProfileConfig::default();
    p.add_profile("local".to_string(), "http://127.0.0.1:9000".to_string());
    assert_eq!(p.profiles.len(), 4);
    assert_eq!(p.profiles[3].name, "local");
    assert_eq!(p.profiles[3].rpc, "http://127.0.0.1:9000");
    assert!(p.profiles[3].faucet.is_none());

    // adding the same name replaces the entry
    p.add_profile("local".to_string(), "http://127.0.0.1:9123".to_string());
    assert_eq!(p.profiles.len(), 4);
    assert_eq!(p.profiles[3].rpc, "http://127.0.0.1:9123");

    assert!(p.switch_profile("local".to_string()));
    assert_eq!(p.active, "local");
    assert!(!p.switch_profile("missing".to_string()));
    assert_eq!(p.active, "local");

    assert!(p.remove_profile(&"local".to_string()));
    assert_eq!(p.profiles.len(), 3);
    assert!(!p.remove_profile(&"local".to_string()));

    assert_eq!(p.find_profile(&"testnet".to_string()), Some(1));
    assert_eq!(p.find_profile(&"local".to_string()), None);
}
