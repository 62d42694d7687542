use neutron_voting_registry::power::{PowerEntry, PowerTable, TotalEntry};
use neutron_voting_registry::registry::{
    execute, instantiate, query, Admin, Config, ContractError, ExecuteMsg, InstantiateMsg,
    QueryMsg, QueryResponse, Registry,
};

const DAO_ADDR: &str = "dao";
const ADDR1: &str = "addr1";
const VAULT_A: &str = "vault_a";
const VAULT_B: &str = "vault_b";

fn setup() -> Registry {
    let (registry, _resp) = instantiate(
        &DAO_ADDR.to_string(),
        InstantiateMsg {
            owner: Some(Admin::CoreModule),
            manager: Some(ADDR1.to_string()),
            voting_vault: VAULT_A.to_string(),
        },
    )
    .unwrap();
    registry
}

fn setup_two_vaults() -> Registry {
    let mut registry = setup();
    execute(
        &mut registry.config,
        &DAO_ADDR.to_string(),
        ExecuteMsg::AddVotingVault { new_voting_vault_contract: VAULT_B.to_string() },
    )
    .unwrap();
    registry
}

fn total_entry(vault: &str, height: u64, power: u128) -> TotalEntry {
    TotalEntry { vault: vault.to_string(), height, power }
}

fn power_entry(vault: &str, address: &str, height: u64, power: u128) -> PowerEntry {
    PowerEntry { vault: vault.to_string(), address: address.to_string(), height, power }
}

#[test]
fn total_power_sums_over_all_vaults() {
    let registry = setup_two_vaults();
    let table = PowerTable {
        powers: vec![],
        totals: vec![total_entry(VAULT_A, 42, 10), total_entry(VAULT_B, 42, 25)],
    };
    let resp = match query(
        &registry,
        &table,
        0,
        QueryMsg::TotalPowerAtHeight { height: Some(42) },
    )
    .unwrap()
    {
        QueryResponse::TotalPowerAtHeight(r) => r,
        _ => unreachable!(),
    };
    assert_eq!(resp.power, 35);
    assert_eq!(resp.height, 42);
}

#[test]
fn voting_power_sums_over_all_vaults() {
    let registry = setup_two_vaults();
    let table = PowerTable {
        powers: vec![
            power_entry(VAULT_A, "user1", 7, 3),
            power_entry(VAULT_B, "user1", 7, 4),
            power_entry(VAULT_A, "user2", 7, 100),
        ],
        totals: vec![],
    };
    let resp = match query(
        &registry,
        &table,
        0,
        QueryMsg::VotingPowerAtHeight { address: "user1".to_string(), height: Some(7) },
    )
    .unwrap()
    {
        QueryResponse::VotingPowerAtHeight(r) => r,
        _ => unreachable!(),
    };
    assert_eq!(resp.power, 7);
    assert_eq!(resp.height, 7);
}

#[test]
fn omitted_height_resolves_to_current_block_for_every_sub_query() {
    let registry = setup_two_vaults();
    // Rows exist at heights 42 and 43; with the height omitted and the
    // current block at 42, every sub-query must run at 42.
    let table = PowerTable {
        powers: vec![],
        totals: vec![
            total_entry(VAULT_A, 42, 10),
            total_entry(VAULT_B, 42, 20),
            total_entry(VAULT_A, 43, 1000),
            total_entry(VAULT_B, 43, 2000),
        ],
    };
    let resp = match query(&registry, &table, 42, QueryMsg::TotalPowerAtHeight { height: None })
        .unwrap()
    {
        QueryResponse::TotalPowerAtHeight(r) => r,
        _ => unreachable!(),
    };
    assert_eq!(resp.power, 30);
    assert_eq!(resp.height, 42);
}

#[test]
fn total_power_saturates_at_the_limit() {
    let registry = setup_two_vaults();
    let table = PowerTable {
        powers: vec![],
        totals: vec![total_entry(VAULT_A, 1, u128::MAX), total_entry(VAULT_B, 1, 5)],
    };
    let resp = match query(
        &registry,
        &table,
        0,
        QueryMsg::TotalPowerAtHeight { height: Some(1) },
    )
    .unwrap()
    {
        QueryResponse::TotalPowerAtHeight(r) => r,
        _ => unreachable!(),
    };
    assert_eq!(resp.power, u128::MAX);
}

#[test]
fn first_failing_vault_aborts_the_query() {
    let registry = setup_two_vaults();
    // Only the second vault answers: the first failing vault is VAULT_A.
    let table = PowerTable { powers: vec![], totals: vec![total_entry(VAULT_B, 5, 9)] };
    let err = query(
        &registry,
        &table,
        0,
        QueryMsg::TotalPowerAtHeight { height: Some(5) },
    )
    .unwrap_err();
    match err {
        ContractError::Upstream { source, detail } => {
            assert_eq!(source, VAULT_A.to_string());
            assert_eq!(detail, "no matching table row".to_string());
        },
        _ => panic!("expected an upstream error"),
    }
}

#[test]
fn omitted_owner_resolves_to_the_instantiating_sender() {
    // An unset owner is substituted with the caller at instantiation, once,
    // and persisted.
    let (registry, _resp) = instantiate(
        &DAO_ADDR.to_string(),
        InstantiateMsg { owner: None, manager: None, voting_vault: VAULT_A.to_string() },
    )
    .unwrap();
    assert_eq!(registry.config.owner, Some(DAO_ADDR.to_string()));

    // The substituted owner has full authority from then on.
    let mut registry = registry;
    execute(
        &mut registry.config,
        &DAO_ADDR.to_string(),
        ExecuteMsg::AddVotingVault { new_voting_vault_contract: VAULT_B.to_string() },
    )
    .unwrap();
    assert_eq!(
        registry.config.voting_vaults,
        vec![VAULT_A.to_string(), VAULT_B.to_string()]
    );
}

#[test]
fn failure_attribution_follows_insertion_order() {
    let registry = setup_two_vaults();
    // The first vault answers, the second does not: the error names VAULT_B.
    let table = PowerTable { powers: vec![], totals: vec![total_entry(VAULT_A, 5, 9)] };
    let err = query(
        &registry,
        &table,
        0,
        QueryMsg::TotalPowerAtHeight { height: Some(5) },
    )
    .unwrap_err();
    match err {
        ContractError::Upstream { source, .. } => assert_eq!(source, VAULT_B.to_string()),
        _ => panic!("expected an upstream error"),
    }
}

#[test]
fn list_bonders_and_bonding_status_are_fixed_defaults() {
    let registry = setup();
    let table = PowerTable { powers: vec![], totals: vec![] };
    match query(
        &registry,
        &table,
        9,
        QueryMsg::ListBonders { start_after: None, limit: None },
    )
    .unwrap()
    {
        QueryResponse::ListBonders(r) => assert_eq!(r.bonders.len(), 0),
        _ => unreachable!(),
    }
    match query(
        &registry,
        &table,
        9,
        QueryMsg::BondingStatus { height: None, address: "user1".to_string() },
    )
    .unwrap()
    {
        QueryResponse::BondingStatus(r) => {
            assert_eq!(r.unbondable_abount, 0);
            assert!(!r.bonding_enabled);
            assert_eq!(r.height, 9);
        },
        _ => unreachable!(),
    }
}

#[test]
fn end_to_end_scenario() {
    // Instantiate with the core-module owner convention, a manager and one
    // vault; grow, shrink, and hit the sole-source guard.
    let mut registry = setup();
    assert_eq!(
        registry.config,
        Config {
            owner: Some(DAO_ADDR.to_string()),
            manager: Some(ADDR1.to_string()),
            voting_vaults: vec![VAULT_A.to_string()],
        }
    );

    // The owner adds a second vault.
    execute(
        &mut registry.config,
        &DAO_ADDR.to_string(),
        ExecuteMsg::AddVotingVault { new_voting_vault_contract: VAULT_B.to_string() },
    )
    .unwrap();
    assert_eq!(
        registry.config.voting_vaults,
        vec![VAULT_A.to_string(), VAULT_B.to_string()]
    );

    // The manager removes the first vault.
    execute(
        &mut registry.config,
        &ADDR1.to_string(),
        ExecuteMsg::RemoveVotingVault { old_voting_vault_contract: VAULT_A.to_string() },
    )
    .unwrap();
    assert_eq!(registry.config.voting_vaults, vec![VAULT_B.to_string()]);

    // Nobody may remove the sole remaining vault.
    let err = execute(
        &mut registry.config,
        &DAO_ADDR.to_string(),
        ExecuteMsg::RemoveVotingVault { old_voting_vault_contract: VAULT_B.to_string() },
    )
    .unwrap_err();
    assert_eq!(err, ContractError::RemoveLastVaultForbidden);
    assert_eq!(registry.config.voting_vaults, vec![VAULT_B.to_string()]);
}

#[test]
fn duplicate_vault_is_rejected() {
    let mut registry = setup();
    let err = execute(
        &mut registry.config,
        &DAO_ADDR.to_string(),
        ExecuteMsg::AddVotingVault { new_voting_vault_contract: VAULT_A.to_string() },
    )
    .unwrap_err();
    assert_eq!(err, ContractError::VaultAlreadyPresent { vault: VAULT_A.to_string() });
    assert_eq!(registry.config.voting_vaults, vec![VAULT_A.to_string()]);
}

#[test]
fn removing_an_absent_vault_is_rejected() {
    let mut registry = setup_two_vaults();
    let err = execute(
        &mut registry.config,
        &DAO_ADDR.to_string(),
        ExecuteMsg::RemoveVotingVault { old_voting_vault_contract: "vault_c".to_string() },
    )
    .unwrap_err();
    assert_eq!(err, ContractError::VaultNotFound { vault: "vault_c".to_string() });
    assert_eq!(
        registry.config.voting_vaults,
        vec![VAULT_A.to_string(), VAULT_B.to_string()]
    );
}

#[test]
fn invalid_addresses_are_rejected() {
    // The validator refuses upper-case and too-short identifiers.
    let mut registry = setup();
    let err = execute(
        &mut registry.config,
        &DAO_ADDR.to_string(),
        ExecuteMsg::AddVotingVault { new_voting_vault_contract: "VaultUpper".to_string() },
    )
    .unwrap_err();
    assert_eq!(err, ContractError::InvalidAddress { address: "VaultUpper".to_string() });

    let err = match instantiate(
        &DAO_ADDR.to_string(),
        InstantiateMsg { owner: None, manager: None, voting_vault: "ab".to_string() },
    ) {
        Err(e) => e,
        Ok(_) => panic!("expected an error"),
    };
    assert_eq!(err, ContractError::InvalidAddress { address: "ab".to_string() });
}

#[test]
fn omitted_update_fields_stay_unchanged() {
    let mut registry = setup();
    execute(
        &mut registry.config,
        &DAO_ADDR.to_string(),
        ExecuteMsg::UpdateConfig { owner: None, manager: None },
    )
    .unwrap();
    assert_eq!(
        registry.config,
        Config {
            owner: Some(DAO_ADDR.to_string()),
            manager: Some(ADDR1.to_string()),
            voting_vaults: vec![VAULT_A.to_string()],
        }
    );
}

#[test]
fn aggregate_is_order_independent() {
    // Two registries holding the same vaults in opposite orders report the
    // same total.
    let table = PowerTable {
        powers: vec![],
        totals: vec![total_entry(VAULT_A, 3, 11), total_entry(VAULT_B, 3, 31)],
    };
    let forward = setup_two_vaults();
    let mut backward = {
        let (registry, _resp) = instantiate(
            &DAO_ADDR.to_string(),
            InstantiateMsg {
                owner: Some(Admin::CoreModule),
                manager: None,
                voting_vault: VAULT_B.to_string(),
            },
        )
        .unwrap();
        registry
    };
    execute(
        &mut backward.config,
        &DAO_ADDR.to_string(),
        ExecuteMsg::AddVotingVault { new_voting_vault_contract: VAULT_A.to_string() },
    )
    .unwrap();

    let total = |registry: &Registry| match query(
        registry,
        &table,
        0,
        QueryMsg::TotalPowerAtHeight { height: Some(3) },
    )
    .unwrap()
    {
        QueryResponse::TotalPowerAtHeight(r) => r.power,
        _ => unreachable!(),
    };
    assert_eq!(total(&forward), 42);
    assert_eq!(total(&backward), 42);
}

#[test]
fn manager_may_add_a_vault() {
    let mut registry = setup();
    execute(
        &mut registry.config,
        &ADDR1.to_string(),
        ExecuteMsg::AddVotingVault { new_voting_vault_contract: VAULT_B.to_string() },
    )
    .unwrap();
    assert_eq!(
        registry.config.voting_vaults,
        vec![VAULT_A.to_string(), VAULT_B.to_string()]
    );
}

#[test]
fn add_vault_emits_its_change_record() {
    let mut registry = setup();
    let resp = execute(
        &mut registry.config,
        &DAO_ADDR.to_string(),
        ExecuteMsg::AddVotingVault { new_voting_vault_contract: VAULT_B.to_string() },
    )
    .unwrap();
    let attrs: Vec<(String, String)> = resp
        .attributes
        .into_iter()
        .map(|a| (a.key, a.value))
        .collect();
    assert_eq!(
        attrs,
        vec![
            ("action".to_string(), "add_vault".to_string()),
            ("new_vault".to_string(), VAULT_B.to_string()),
        ]
    );
}
