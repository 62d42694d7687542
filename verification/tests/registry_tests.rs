use cosmwasm_std::testing::MockStorage;
use neutron_voting_registry::power::PowerTable;
use neutron_voting_registry::registry::{
    contract_name, contract_version, execute, instantiate, migrate, query, Admin, Config,
    ContractError, ExecuteMsg, InstantiateMsg, MigrateMsg, QueryMsg, QueryResponse, Registry,
};
use neutron_voting_registry::response::Response;

const DAO_ADDR: &str = "dao";
const VAULT_ADDR: &str = "vault";
const ADDR1: &str = "addr1";
const ADDR2: &str = "addr2";

fn unwrap_or_text<T>(r: Result<T, ContractError>) -> T {
    match r {
        Ok(v) => v,
        Err(e) => panic!("{}", e.text()),
    }
}

fn empty_table() -> PowerTable {
    PowerTable { powers: vec![], totals: vec![] }
}

fn instantiate_voting_registry(msg: InstantiateMsg) -> Registry {
    let (registry, _resp) = unwrap_or_text(instantiate(&DAO_ADDR.to_string(), msg));
    registry
}

fn update_config(
    registry: &mut Registry,
    sender: &str,
    owner: Option<String>,
    manager: Option<String>,
) -> Response {
    unwrap_or_text(execute(
        &mut registry.config,
        &sender.to_string(),
        ExecuteMsg::UpdateConfig { owner, manager },
    ))
}

fn add_vault(registry: &mut Registry, sender: &str, new_voting_vault_contract: String) -> Response {
    unwrap_or_text(execute(
        &mut registry.config,
        &sender.to_string(),
        ExecuteMsg::AddVotingVault { new_voting_vault_contract },
    ))
}

fn remove_vault(
    registry: &mut Registry,
    sender: &str,
    old_voting_vault_contract: String,
) -> Response {
    unwrap_or_text(execute(
        &mut registry.config,
        &sender.to_string(),
        ExecuteMsg::RemoveVotingVault { old_voting_vault_contract },
    ))
}

fn get_config(registry: &Registry) -> Config {
    match unwrap_or_text(query(registry, &empty_table(), 0, QueryMsg::GetConfig)) {
        QueryResponse::GetConfig(c) => c,
        _ => unreachable!(),
    }
}

#[test]
fn test_instantiate() {
    // Populated fields
    let _registry = instantiate_voting_registry(InstantiateMsg {
        owner: Some(Admin::Address { addr: DAO_ADDR.to_string() }),
        manager: Some(ADDR1.to_string()),
        voting_vault: VAULT_ADDR.to_string(),
    });

    // Non populated fields
    let _registry = instantiate_voting_registry(InstantiateMsg {
        owner: None,
        manager: None,
        voting_vault: VAULT_ADDR.to_string(),
    });
}

#[test]
fn test_instantiate_dao_owner() {
    let registry = instantiate_voting_registry(InstantiateMsg {
        owner: Some(Admin::CoreModule),
        manager: Some(ADDR1.to_string()),
        voting_vault: VAULT_ADDR.to_string(),
    });

    let config = get_config(&registry);

    assert_eq!(config.owner, Some(DAO_ADDR.to_string()))
}

#[test]
#[should_panic(expected = "Unauthorized")]
fn test_update_config_invalid_sender() {
    let mut registry = instantiate_voting_registry(InstantiateMsg {
        owner: Some(Admin::CoreModule),
        manager: Some(ADDR1.to_string()),
        voting_vault: VAULT_ADDR.to_string(),
    });

    // From ADDR2, so not owner or manager
    update_config(
        &mut registry,
        ADDR2,
        Some(ADDR1.to_string()),
        Some(DAO_ADDR.to_string()),
    );
}

#[test]
#[should_panic(expected = "Only owner can change owner")]
fn test_update_config_non_owner_changes_owner() {
    let mut registry = instantiate_voting_registry(InstantiateMsg {
        owner: Some(Admin::CoreModule),
        manager: Some(ADDR1.to_string()),
        voting_vault: VAULT_ADDR.to_string(),
    });

    // ADDR1 is the manager so cannot change the owner
    update_config(&mut registry, ADDR1, Some(ADDR2.to_string()), None);
}

#[test]
fn test_update_config_as_owner() {
    let mut registry = instantiate_voting_registry(InstantiateMsg {
        owner: Some(Admin::CoreModule),
        manager: Some(ADDR1.to_string()),
        voting_vault: VAULT_ADDR.to_string(),
    });

    // Swap owner and manager
    update_config(
        &mut registry,
        DAO_ADDR,
        Some(ADDR1.to_string()),
        Some(DAO_ADDR.to_string()),
    );

    let config = get_config(&registry);
    assert_eq!(
        Config {
            owner: Some(ADDR1.to_string()),
            manager: Some(DAO_ADDR.to_string()),
            voting_vaults: vec![VAULT_ADDR.to_string()],
        },
        config
    );
}

#[test]
fn test_update_config_as_manager() {
    let mut registry = instantiate_voting_registry(InstantiateMsg {
        owner: Some(Admin::CoreModule),
        manager: Some(ADDR1.to_string()),
        voting_vault: VAULT_ADDR.to_string(),
    });

    // Change the manager, as the manager cannot change the owner
    update_config(
        &mut registry,
        ADDR1,
        Some(DAO_ADDR.to_string()),
        Some(ADDR2.to_string()),
    );

    let config = get_config(&registry);
    assert_eq!(
        Config {
            owner: Some(DAO_ADDR.to_string()),
            manager: Some(ADDR2.to_string()),
            voting_vaults: vec![VAULT_ADDR.to_string()],
        },
        config
    );
}

#[test]
fn test_query_dao() {
    let registry = instantiate_voting_registry(InstantiateMsg {
        owner: Some(Admin::CoreModule),
        manager: Some(ADDR1.to_string()),
        voting_vault: VAULT_ADDR.to_string(),
    });

    let dao = match unwrap_or_text(query(&registry, &empty_table(), 0, QueryMsg::Dao)) {
        QueryResponse::Dao(d) => d,
        _ => unreachable!(),
    };
    assert_eq!(dao, DAO_ADDR.to_string());
}

#[test]
fn test_query_info() {
    let registry = instantiate_voting_registry(InstantiateMsg {
        owner: Some(Admin::CoreModule),
        manager: Some(ADDR1.to_string()),
        voting_vault: VAULT_ADDR.to_string(),
    });

    let resp = match unwrap_or_text(query(&registry, &empty_table(), 0, QueryMsg::Info)) {
        QueryResponse::Info(i) => i,
        _ => unreachable!(),
    };
    assert_eq!(resp.info.contract, "crates.io:neutron-voting-registry");
}

#[test]
fn test_query_get_config() {
    let registry = instantiate_voting_registry(InstantiateMsg {
        owner: Some(Admin::CoreModule),
        manager: Some(ADDR1.to_string()),
        voting_vault: VAULT_ADDR.to_string(),
    });

    let config = get_config(&registry);
    assert_eq!(
        config,
        Config {
            owner: Some(DAO_ADDR.to_string()),
            manager: Some(ADDR1.to_string()),
            voting_vaults: vec![VAULT_ADDR.to_string()],
        }
    )
}

#[test]
fn test_add_vault_owner() {
    let mut registry = instantiate_voting_registry(InstantiateMsg {
        owner: Some(Admin::CoreModule),
        manager: Some(ADDR1.to_string()),
        voting_vault: VAULT_ADDR.to_string(),
    });

    let new_vault: &str = "new_vault";
    add_vault(&mut registry, DAO_ADDR, new_vault.to_string());

    let config = get_config(&registry);
    assert_eq!(
        config,
        Config {
            owner: Some(DAO_ADDR.to_string()),
            manager: Some(ADDR1.to_string()),
            voting_vaults: vec![VAULT_ADDR.to_string(), new_vault.to_string()],
        }
    )
}

#[test]
fn test_remove_vault_owner() {
    let mut registry = instantiate_voting_registry(InstantiateMsg {
        owner: Some(Admin::CoreModule),
        manager: Some(ADDR1.to_string()),
        voting_vault: VAULT_ADDR.to_string(),
    });

    let new_vault: &str = "new_vault";
    add_vault(&mut registry, DAO_ADDR, new_vault.to_string());

    let config = get_config(&registry);
    assert_eq!(
        config,
        Config {
            owner: Some(DAO_ADDR.to_string()),
            manager: Some(ADDR1.to_string()),
            voting_vaults: vec![VAULT_ADDR.to_string(), new_vault.to_string()],
        }
    );

    remove_vault(&mut registry, DAO_ADDR, VAULT_ADDR.to_string());
    let config = get_config(&registry);
    assert_eq!(
        config,
        Config {
            owner: Some(DAO_ADDR.to_string()),
            manager: Some(ADDR1.to_string()),
            voting_vaults: vec![new_vault.to_string()],
        }
    );
}

#[test]
#[should_panic(expected = "Removing last vault is forbidden")]
fn test_remove_last_vault_owner() {
    let mut registry = instantiate_voting_registry(InstantiateMsg {
        owner: Some(Admin::CoreModule),
        manager: Some(ADDR1.to_string()),
        voting_vault: VAULT_ADDR.to_string(),
    });

    let new_vault: &str = "new_vault";
    remove_vault(&mut registry, DAO_ADDR, new_vault.to_string());
}

#[test]
pub fn test_migrate_update_version() {
    let mut storage = MockStorage::default();
    cw2::set_contract_version(&mut storage, "my-contract", "old-version").unwrap();
    migrate(&mut storage, MigrateMsg {}).unwrap();
    let version = cw2::get_contract_version(&storage).unwrap();
    assert_eq!(version.version, contract_version());
    assert_eq!(version.contract, contract_name());
}
