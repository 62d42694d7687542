//! The vault registry: an owner/manager-gated, never-empty, duplicate-free
//! ordered list of voting vaults, height-indexed aggregate power queries
//! fanned out over that list, and contract-version stamping.

use vstd::prelude::*;
use vstd::string::StringExecFns;
use cosmwasm_std::testing::MockStorage;
use crate::addr::{addr_accepted, validate_address};
use crate::power::{
    clamp_u128, reported_powers, reported_totals, sum_powers, lemma_sum_powers_nonneg,
    VaultQuerier,
};
use crate::response::Response;
use crate::version::{
    get_stored_version, new_version_store, set_stored_version, stored_contract_version,
};

verus! {

// ---------------------------------------------------------------------------
// Data model
// ---------------------------------------------------------------------------

/// The admin designation given at instantiation: a concrete address, or the
/// convention that the instantiating core module itself is the admin.
#[derive(Clone, Debug, PartialEq, Eq)]
pub enum Admin {
    Address { addr: String },
    CoreModule,
}

pub struct InstantiateMsg {
    pub owner: Option<Admin>,
    pub manager: Option<String>,
    pub voting_vault: String,
}

pub enum ExecuteMsg {
    UpdateConfig { owner: Option<String>, manager: Option<String> },
    AddVotingVault { new_voting_vault_contract: String },
    RemoveVotingVault { old_voting_vault_contract: String },
}

pub enum QueryMsg {
    VotingPowerAtHeight { address: String, height: Option<u64> },
    TotalPowerAtHeight { height: Option<u64> },
    Info,
    Dao,
    GetConfig,
    ListBonders { start_after: Option<String>, limit: Option<u32> },
    BondingStatus { height: Option<u64>, address: String },
}

pub struct MigrateMsg {}

/// The one mutable configuration record of a registry instance.
#[derive(Debug, PartialEq, Eq)]
pub struct Config {
    pub owner: Option<String>,
    pub manager: Option<String>,
    pub voting_vaults: Vec<String>,
}

/// The mathematical shape of a configuration.
#[verifier::ext_equal]
pub struct AbstractConfig {
    pub owner: Option<Seq<char>>,
    pub manager: Option<Seq<char>>,
    pub voting_vaults: Seq<Seq<char>>,
}

impl View for Config {
    type V = AbstractConfig;

    open spec fn view(&self) -> AbstractConfig {
        AbstractConfig {
            owner: self.owner.deep_view(),
            manager: self.manager.deep_view(),
            voting_vaults: self.voting_vaults@.map_values(|v: String| v@),
        }
    }
}

/// A registry instance: its configuration, the identity that instantiated
/// it (the DAO), and the store holding its cw2 version record.
pub struct Registry {
    pub config: Config,
    pub dao: String,
    pub store: MockStorage,
}

#[derive(Debug, PartialEq, Eq)]
pub struct VotingPowerAtHeightResponse {
    pub power: u128,
    pub height: u64,
}

#[derive(Debug, PartialEq, Eq)]
pub struct TotalPowerAtHeightResponse {
    pub power: u128,
    pub height: u64,
}

#[derive(Debug, PartialEq, Eq)]
pub struct ContractVersion {
    pub contract: String,
    pub version: String,
}

#[derive(Debug, PartialEq, Eq)]
pub struct InfoResponse {
    pub info: ContractVersion,
}

#[derive(Debug, PartialEq, Eq)]
pub struct ListBondersResponse {
    pub bonders: Vec<String>,
}

#[derive(Debug, PartialEq, Eq)]
pub struct BondingStatusResponse {
    pub unbondable_abount: u128,
    pub bonding_enabled: bool,
    pub height: u64,
}

#[derive(Debug, PartialEq, Eq)]
pub enum QueryResponse {
    VotingPowerAtHeight(VotingPowerAtHeightResponse),
    TotalPowerAtHeight(TotalPowerAtHeightResponse),
    Info(InfoResponse),
    Dao(String),
    GetConfig(Config),
    ListBonders(ListBondersResponse),
    BondingStatus(BondingStatusResponse),
}

#[derive(Debug, PartialEq, Eq)]
pub enum ContractError {
    /// The version store failed.
    Std { detail: String },
    /// The validator rejected an identifier.
    InvalidAddress { address: String },
    /// The caller is neither owner nor manager.
    Unauthorized,
    /// A non-owner tried to change the owner identity.
    OnlyOwnerCanChangeOwner,
    /// The vault to add is already configured.
    VaultAlreadyPresent { vault: String },
    /// The vault to remove is not configured.
    VaultNotFound { vault: String },
    /// The vault to remove is the sole configured source.
    RemoveLastVaultForbidden,
    /// A fanned-out sub-query failed on `source`.
    Upstream { source: String, detail: String },
}

pub open spec fn error_text(e: ContractError) -> Seq<char> {
    match e {
        ContractError::Std { .. } => "Version store error"@,
        ContractError::InvalidAddress { .. } => "Invalid address"@,
        ContractError::Unauthorized => "Unauthorized"@,
        ContractError::OnlyOwnerCanChangeOwner => "Only owner can change owner"@,
        ContractError::VaultAlreadyPresent { .. } => "Voting vault is already active"@,
        ContractError::VaultNotFound { .. } => "Voting vault is not active"@,
        ContractError::RemoveLastVaultForbidden => "Removing last vault is forbidden"@,
        ContractError::Upstream { .. } => "Voting vault query failed"@,
    }
}

impl ContractError {
    /// The operator-facing description of the error kind; the offending
    /// identifier travels in the variant's fields.
    pub fn text(&self) -> (s: &'static str)
        ensures
            s@ == error_text(*self),
    {
        match self {
            ContractError::Std { .. } => "Version store error",
            ContractError::InvalidAddress { .. } => "Invalid address",
            ContractError::Unauthorized => "Unauthorized",
            ContractError::OnlyOwnerCanChangeOwner => "Only owner can change owner",
            ContractError::VaultAlreadyPresent { .. } => "Voting vault is already active",
            ContractError::VaultNotFound { .. } => "Voting vault is not active",
            ContractError::RemoveLastVaultForbidden => "Removing last vault is forbidden",
            ContractError::Upstream { .. } => "Voting vault query failed",
        }
    }
}

// ---------------------------------------------------------------------------
// Invariant and authorization model
// ---------------------------------------------------------------------------

pub open spec fn no_dup_vaults(vaults: Seq<Seq<char>>) -> bool {
    forall|i: int, j: int| 0 <= i < j < vaults.len() ==> vaults[i] != vaults[j]
}

/// Well-formedness of a configuration: the vault list is never empty and
/// holds no duplicates.
pub open spec fn config_wf(c: AbstractConfig) -> bool {
    &&& c.voting_vaults.len() > 0
    &&& no_dup_vaults(c.voting_vaults)
}

pub open spec fn is_owner(c: AbstractConfig, sender: Seq<char>) -> bool {
    c.owner == Some(sender)
}

pub open spec fn is_manager(c: AbstractConfig, sender: Seq<char>) -> bool {
    c.manager == Some(sender)
}

/// Whether `sender` may mutate the configuration at all.
pub open spec fn may_mutate(c: AbstractConfig, sender: Seq<char>) -> bool {
    is_owner(c, sender) || is_manager(c, sender)
}

/// Whether `sender` may pass `new_owner`: the owner may pass anything, and
/// anyone else only no owner at all, or the unchanged one (a no-op).
pub open spec fn owner_change_allowed(
    c: AbstractConfig,
    sender: Seq<char>,
    new_owner: Option<Seq<char>>,
) -> bool {
    match new_owner {
        None => true,
        Some(o) => is_owner(c, sender) || c.owner == Some(o),
    }
}

/// Authorization precedence: the owner may perform any mutation including
/// changing the owner; the manager may mutate sources and the manager but
/// never the owner identity; any other caller may mutate nothing.
pub proof fn lemma_authorization_precedence(
    c: AbstractConfig,
    sender: Seq<char>,
    new_owner: Option<Seq<char>>,
)
    ensures
        is_owner(c, sender) ==> may_mutate(c, sender) && owner_change_allowed(
            c,
            sender,
            new_owner,
        ),
        is_manager(c, sender) ==> may_mutate(c, sender),
        !is_owner(c, sender) && (new_owner matches Some(o) && c.owner != Some(o))
            ==> !owner_change_allowed(c, sender, new_owner),
        !is_owner(c, sender) && !is_manager(c, sender) ==> !may_mutate(c, sender),
{
}

// ---------------------------------------------------------------------------
// The configuration transition system
// ---------------------------------------------------------------------------

/// One mutation of the configuration, stripped to what it changes.
pub enum ConfigOp {
    UpdateAdmins { owner: Option<Seq<char>>, manager: Option<Seq<char>> },
    AddVault { vault: Seq<char> },
    RemoveVault { vault: Seq<char> },
}

pub open spec fn updated_admins(
    c: AbstractConfig,
    new_owner: Option<Seq<char>>,
    new_manager: Option<Seq<char>>,
) -> AbstractConfig {
    AbstractConfig {
        owner: if new_owner is Some {
            new_owner
        } else {
            c.owner
        },
        manager: if new_manager is Some {
            new_manager
        } else {
            c.manager
        },
        voting_vaults: c.voting_vaults,
    }
}

pub open spec fn with_vault_added(c: AbstractConfig, vault: Seq<char>) -> AbstractConfig {
    AbstractConfig { owner: c.owner, manager: c.manager, voting_vaults: c.voting_vaults.push(vault) }
}

pub open spec fn with_vault_removed(c: AbstractConfig, i: int) -> AbstractConfig {
    AbstractConfig { owner: c.owner, manager: c.manager, voting_vaults: c.voting_vaults.remove(i) }
}

/// The successful effect of one mutation; a mutation whose invariant guard
/// fails leaves the configuration as it is.
pub open spec fn apply_config_op(c: AbstractConfig, op: ConfigOp) -> AbstractConfig {
    match op {
        ConfigOp::UpdateAdmins { owner, manager } => updated_admins(c, owner, manager),
        ConfigOp::AddVault { vault } => if !c.voting_vaults.contains(vault) {
            with_vault_added(c, vault)
        } else {
            c
        },
        ConfigOp::RemoveVault { vault } => if c.voting_vaults.len() > 1 && c.voting_vaults.contains(
            vault,
        ) {
            with_vault_removed(c, c.voting_vaults.index_of(vault))
        } else {
            c
        },
    }
}

pub open spec fn apply_config_ops(c: AbstractConfig, ops: Seq<ConfigOp>) -> AbstractConfig
    decreases ops.len(),
{
    if ops.len() == 0 {
        c
    } else {
        apply_config_ops(apply_config_op(c, ops[0]), ops.drop_first())
    }
}

pub proof fn lemma_config_op_preserves_wf(c: AbstractConfig, op: ConfigOp)
    requires
        config_wf(c),
    ensures
        config_wf(apply_config_op(c, op)),
{
    match op {
        ConfigOp::UpdateAdmins { .. } => {},
        ConfigOp::AddVault { vault } => {
            if !c.voting_vaults.contains(vault) {
                let v2 = c.voting_vaults.push(vault);
                assert forall|i: int, j: int| 0 <= i < j < v2.len() implies v2[i] != v2[j] by {
                    if j == v2.len() - 1 {
                        assert(!c.voting_vaults.contains(vault));
                        assert(c.voting_vaults[i] == v2[i]);
                    }
                }
            }
        },
        ConfigOp::RemoveVault { vault } => {
            if c.voting_vaults.len() > 1 && c.voting_vaults.contains(vault) {
                let i = c.voting_vaults.index_of(vault);
                let v2 = c.voting_vaults.remove(i);
                assert forall|a: int, b: int| 0 <= a < b < v2.len() implies v2[a] != v2[b] by {
                    assert(v2[a] == if a < i {
                        c.voting_vaults[a]
                    } else {
                        c.voting_vaults[a + 1]
                    });
                    assert(v2[b] == if b < i {
                        c.voting_vaults[b]
                    } else {
                        c.voting_vaults[b + 1]
                    });
                }
            }
        },
    }
}

/// Invariant preservation: whatever sequence of mutations is applied to a
/// well-formed configuration, the vault list stays non-empty and free of
/// duplicates.
pub proof fn lemma_config_ops_preserve_wf(c: AbstractConfig, ops: Seq<ConfigOp>)
    requires
        config_wf(c),
    ensures
        config_wf(apply_config_ops(c, ops)),
    decreases ops.len(),
{
    if ops.len() > 0 {
        lemma_config_op_preserves_wf(c, ops[0]);
        lemma_config_ops_preserve_wf(apply_config_op(c, ops[0]), ops.drop_first());
    }
}

/// Every configured vault has passed the validator.
pub open spec fn vaults_accepted(c: AbstractConfig) -> bool {
    forall|i: int| 0 <= i < c.voting_vaults.len() ==> #[trigger] addr_accepted(c.voting_vaults[i])
}

/// A freshly instantiated registry only holds a vault the validator
/// accepted.
pub proof fn lemma_instantiate_establishes_acceptance(
    sender: Seq<char>,
    msg: InstantiateMsg,
    rr: (Registry, Response),
)
    requires
        instantiate_outcome(sender, msg, Ok(rr)),
    ensures
        vaults_accepted(rr.0.config@),
{
}

/// Validator acceptance of the configured vaults is an invariant along
/// every history: whatever mutation runs, and however it ends, a registry
/// whose vaults were all accepted still only holds accepted vaults.
pub proof fn lemma_execute_preserves_acceptance(
    c0: AbstractConfig,
    c1: AbstractConfig,
    sender: Seq<char>,
    msg: ExecuteMsg,
    r: Result<Response, ContractError>,
)
    requires
        vaults_accepted(c0),
        execute_outcome(c0, c1, sender, msg, r),
    ensures
        vaults_accepted(c1),
{
    if r is Ok {
        match msg {
            ExecuteMsg::UpdateConfig { .. } => {
                assert(c1.voting_vaults == c0.voting_vaults);
            },
            ExecuteMsg::AddVotingVault { new_voting_vault_contract } => {
                let v = new_voting_vault_contract@;
                assert(c1.voting_vaults == c0.voting_vaults.push(v));
                assert forall|i: int| 0 <= i < c1.voting_vaults.len() implies addr_accepted(
                    c1.voting_vaults[i],
                ) by {
                    if i < c0.voting_vaults.len() {
                        assert(c1.voting_vaults[i] == c0.voting_vaults[i]);
                    } else {
                        assert(c1.voting_vaults[i] == v);
                    }
                }
            },
            ExecuteMsg::RemoveVotingVault { old_voting_vault_contract } => {
                let v = old_voting_vault_contract@;
                let j = choose|j: int|
                    0 <= j < c0.voting_vaults.len() && c0.voting_vaults[j] == v && c1
                        == #[trigger] with_vault_removed(c0, j);
                assert forall|i: int| 0 <= i < c1.voting_vaults.len() implies addr_accepted(
                    c1.voting_vaults[i],
                ) by {
                    if i < j {
                        assert(c1.voting_vaults[i] == c0.voting_vaults[i]);
                    } else {
                        assert(c1.voting_vaults[i] == c0.voting_vaults[i + 1]);
                    }
                }
            },
        }
    } else {
        assert(c1 == c0);
    }
}

/// Sole-source protection, free of side conditions on any configuration
/// the library itself can produce: an authorized removal aimed at the only
/// configured vault yields exactly the sole-source error, and the
/// configuration is left as it was.
pub proof fn lemma_sole_source_protected(
    c0: AbstractConfig,
    c1: AbstractConfig,
    sender: Seq<char>,
    vault: Seq<char>,
    r: Result<Response, ContractError>,
)
    requires
        vaults_accepted(c0),
        may_mutate(c0, sender),
        c0.voting_vaults.len() == 1,
        c0.voting_vaults[0] == vault,
        remove_vault_outcome(c0, c1, sender, vault, r),
    ensures
        r matches Err(ContractError::RemoveLastVaultForbidden),
        c1 == c0,
{
    assert(addr_accepted(c0.voting_vaults[0]));
}

// ---------------------------------------------------------------------------
// Shared helpers
// ---------------------------------------------------------------------------

fn opt_contains(o: &Option<String>, s: &String) -> (r: bool)
    ensures
        r <==> o.deep_view() == Some(s@),
{
    match o {
        Some(x) => *x == *s,
        None => false,
    }
}

fn vault_index(vaults: &Vec<String>, target: &String) -> (r: Option<usize>)
    ensures
        match r {
            Some(i) => i < vaults@.len() && vaults@[i as int]@ == target@ && forall|j: int|
                0 <= j < i ==> vaults@[j]@ != target@,
            None => forall|j: int| 0 <= j < vaults@.len() ==> vaults@[j]@ != target@,
        },
{
    let n = vaults.len();
    let mut i: usize = 0;
    while i < n
        invariant
            i <= n,
            n == vaults@.len(),
            forall|j: int| 0 <= j < i ==> vaults@[j]@ != target@,
        decreases n - i,
    {
        if vaults[i] == *target {
            return Some(i);
        }
        i += 1;
    }
    None
}

fn admin_attr_value(o: &Option<String>) -> (v: String)
    ensures
        v@ == attr_string(o.deep_view()),
{
    match o {
        Some(s) => s.clone(),
        None => String::from_str("None"),
    }
}

pub open spec fn attr_string(o: Option<Seq<char>>) -> Seq<char> {
    match o {
        Some(s) => s,
        None => "None"@,
    }
}

pub open spec fn spec_resolve_height(height: Option<u64>, env_height: u64) -> u64 {
    match height {
        Some(h) => h,
        None => env_height,
    }
}

/// The height every sub-query of one aggregate call runs at: the caller's,
/// or the current block height where the caller gave none.
pub fn resolve_height(height: Option<u64>, env_height: u64) -> (h: u64)
    ensures
        h == spec_resolve_height(height, env_height),
{
    match height {
        Some(h) => h,
        None => env_height,
    }
}

impl Config {
    /// An owned copy of the configuration snapshot.
    pub fn snapshot(&self) -> (r: Config)
        ensures
            r@ == self@,
    {
        let owner = match &self.owner {
            Some(s) => Some(s.clone()),
            None => None,
        };
        let manager = match &self.manager {
            Some(s) => Some(s.clone()),
            None => None,
        };
        let n = self.voting_vaults.len();
        let mut voting_vaults: Vec<String> = Vec::new();
        let mut i: usize = 0;
        while i < n
            invariant
                i <= n,
                n == self.voting_vaults@.len(),
                voting_vaults@.len() == i,
                forall|j: int| 0 <= j < i ==> voting_vaults@[j] == self.voting_vaults@[j],
            decreases n - i,
        {
            voting_vaults.push(self.voting_vaults[i].clone());
            i += 1;
        }
        let r = Config { owner, manager, voting_vaults };
        proof {
            assert(r@.voting_vaults =~= self@.voting_vaults);
            assert(r@ =~= self@);
        }
        r
    }
}

// ---------------------------------------------------------------------------
// Instantiation and versioning
// ---------------------------------------------------------------------------

pub open spec fn spec_contract_name() -> Seq<char> {
    "crates.io:neutron-voting-registry"@
}

pub open spec fn spec_contract_version() -> Seq<char> {
    "0.1.0"@
}

pub fn contract_name() -> (s: &'static str)
    ensures
        s@ == spec_contract_name(),
{
    "crates.io:neutron-voting-registry"
}

pub fn contract_version() -> (s: &'static str)
    ensures
        s@ == spec_contract_version(),
{
    "0.1.0"
}

/// The owner identity persisted at instantiation: a given address as such,
/// and the instantiating sender both under the core-module convention and
/// where no owner is given at all — an unset owner is substituted with the
/// caller, so the registry is never born without an authority. This
/// resolution happens once; it is never re-derived.
pub open spec fn resolved_owner(sender: Seq<char>, owner: Option<Admin>) -> Option<Seq<char>> {
    match owner {
        None => Some(sender),
        Some(Admin::Address { addr }) => Some(addr@),
        Some(Admin::CoreModule) => Some(sender),
    }
}

pub open spec fn instantiate_attrs(c: AbstractConfig, vault: Seq<char>) -> Seq<
    (Seq<char>, Seq<char>),
> {
    seq![
        ("action"@, "instantiate"@),
        ("owner"@, attr_string(c.owner)),
        ("manager"@, attr_string(c.manager)),
        ("voting_vault"@, vault),
    ]
}

pub open spec fn instantiate_addrs_accepted(msg: InstantiateMsg) -> bool {
    &&& (msg.owner matches Some(Admin::Address { addr }) ==> addr_accepted(addr@))
    &&& (msg.manager matches Some(m) ==> addr_accepted(m@))
    &&& addr_accepted(msg.voting_vault@)
}

pub open spec fn instantiate_invalid_addr(msg: InstantiateMsg, address: Seq<char>) -> bool {
    ||| (msg.owner matches Some(Admin::Address { addr }) && !addr_accepted(addr@) && address
        == addr@)
    ||| ((msg.owner matches Some(Admin::Address { addr }) ==> addr_accepted(addr@))
        && (msg.manager matches Some(m) && !addr_accepted(m@) && address == m@))
    ||| ((msg.owner matches Some(Admin::Address { addr }) ==> addr_accepted(addr@)) && (
    msg.manager matches Some(m) ==> addr_accepted(m@)) && !addr_accepted(msg.voting_vault@)
        && address == msg.voting_vault@)
}

pub open spec fn instantiate_outcome(
    sender: Seq<char>,
    msg: InstantiateMsg,
    r: Result<(Registry, Response), ContractError>,
) -> bool {
    match r {
        Ok(rr) => {
            &&& instantiate_addrs_accepted(msg)
            &&& rr.0.config@.owner == resolved_owner(sender, msg.owner)
            &&& rr.0.config@.manager == msg.manager.deep_view()
            &&& rr.0.config@.voting_vaults == seq![msg.voting_vault@]
            &&& config_wf(rr.0.config@)
            &&& rr.0.dao@ == sender
            &&& stored_contract_version(rr.0.store) == Some(
                (spec_contract_name(), spec_contract_version()),
            )
            &&& rr.1@ == instantiate_attrs(rr.0.config@, msg.voting_vault@)
        },
        Err(e) => match e {
            ContractError::InvalidAddress { address } => instantiate_invalid_addr(msg, address@),
            _ => false,
        },
    }
}

/// Create a registry: resolve and validate the admins, validate the one
/// initial vault, stamp the contract version, and record the sender as the
/// DAO identity.
pub fn instantiate(sender: &String, msg: InstantiateMsg) -> (r: Result<
    (Registry, Response),
    ContractError,
>)
    ensures
        instantiate_outcome(sender@, msg, r),
        instantiate_addrs_accepted(msg) ==> r is Ok,
{
    let ghost gmsg = msg;
    let owner = match msg.owner {
        None => Some(sender.clone()),
        Some(Admin::Address { addr }) => match validate_address(&addr) {
            Ok(a) => Some(a),
            Err(_) => {
                return Err(ContractError::InvalidAddress { address: addr });
            },
        },
        Some(Admin::CoreModule) => Some(sender.clone()),
    };
    let manager = match msg.manager {
        None => None,
        Some(m) => match validate_address(&m) {
            Ok(a) => Some(a),
            Err(_) => {
                return Err(ContractError::InvalidAddress { address: m });
            },
        },
    };
    let vault = match validate_address(&msg.voting_vault) {
        Ok(a) => a,
        Err(_) => {
            return Err(ContractError::InvalidAddress { address: msg.voting_vault });
        },
    };
    let mut store = new_version_store();
    match set_stored_version(&mut store, contract_name(), contract_version()) {
        Ok(()) => {},
        Err(detail) => {
            return Err(ContractError::Std { detail });
        },
    }
    let mut voting_vaults: Vec<String> = Vec::new();
    voting_vaults.push(vault);
    let config = Config { owner, manager, voting_vaults };
    let resp = Response::new().add_attribute("action", String::from_str("instantiate"))
        .add_attribute("owner", admin_attr_value(&config.owner)).add_attribute(
        "manager",
        admin_attr_value(&config.manager),
    ).add_attribute("voting_vault", String::from_str(msg.voting_vault.as_str()));
    let registry = Registry { config, dao: sender.clone(), store };
    proof {
        assert(registry.config@.voting_vaults =~= seq![gmsg.voting_vault@]);
        assert(resp@ =~= instantiate_attrs(registry.config@, gmsg.voting_vault@));
    }
    Ok((registry, resp))
}

/// Re-stamp the stored schema-version record; this succeeds on every call,
/// and is idempotent: the resulting record does not depend on what was
/// stored before.
pub fn migrate(store: &mut MockStorage, _msg: MigrateMsg) -> (r: Result<Response, ContractError>)
    ensures
        r is Ok,
        match r {
            Ok(resp) => stored_contract_version(*final(store)) == Some(
                (spec_contract_name(), spec_contract_version()),
            ) && resp@ == Seq::<(Seq<char>, Seq<char>)>::empty(),
            Err(_) => false,
        },
{
    match set_stored_version(store, contract_name(), contract_version()) {
        Ok(()) => Ok(Response::new()),
        Err(detail) => Err(ContractError::Std { detail }),
    }
}

// ---------------------------------------------------------------------------
// Mutation path
// ---------------------------------------------------------------------------

pub open spec fn update_config_attrs(c: AbstractConfig) -> Seq<(Seq<char>, Seq<char>)> {
    seq![
        ("action"@, "update_config"@),
        ("owner"@, attr_string(c.owner)),
        ("manager"@, attr_string(c.manager)),
    ]
}

pub open spec fn invalid_admin_addr(
    new_owner: Option<Seq<char>>,
    new_manager: Option<Seq<char>>,
    address: Seq<char>,
) -> bool {
    ||| (new_owner matches Some(o) && !addr_accepted(o) && address == o)
    ||| ((new_owner matches Some(o) ==> addr_accepted(o)) && (new_manager matches Some(m)
        && !addr_accepted(m) && address == m))
}

pub open spec fn update_config_outcome(
    c0: AbstractConfig,
    c1: AbstractConfig,
    sender: Seq<char>,
    new_owner: Option<Seq<char>>,
    new_manager: Option<Seq<char>>,
    r: Result<Response, ContractError>,
) -> bool {
    match r {
        Ok(resp) => {
            &&& may_mutate(c0, sender)
            &&& (new_owner matches Some(o) ==> addr_accepted(o))
            &&& (new_manager matches Some(m) ==> addr_accepted(m))
            &&& owner_change_allowed(c0, sender, new_owner)
            &&& c1 == updated_admins(c0, new_owner, new_manager)
            &&& resp@ == update_config_attrs(c1)
        },
        Err(e) => c1 == c0 && match e {
            ContractError::Unauthorized => !may_mutate(c0, sender),
            ContractError::InvalidAddress { address } => may_mutate(c0, sender)
                && invalid_admin_addr(new_owner, new_manager, address@),
            ContractError::OnlyOwnerCanChangeOwner => {
                &&& may_mutate(c0, sender)
                &&& (new_owner matches Some(o) ==> addr_accepted(o))
                &&& (new_manager matches Some(m) ==> addr_accepted(m))
                &&& !owner_change_allowed(c0, sender, new_owner)
            },
            _ => false,
        },
    }
}

/// Change owner and/or manager. Owner or manager may call; only the owner
/// may actually change the owner identity; omitted fields stay unchanged.
pub fn execute_update_config(
    config: &mut Config,
    sender: &String,
    new_owner: Option<String>,
    new_manager: Option<String>,
) -> (r: Result<Response, ContractError>)
    requires
        config_wf(old(config)@),
    ensures
        config_wf(final(config)@),
        update_config_outcome(
            old(config)@,
            final(config)@,
            sender@,
            new_owner.deep_view(),
            new_manager.deep_view(),
            r,
        ),
{
    let ghost c0 = config@;
    let sender_is_owner = opt_contains(&config.owner, sender);
    if !sender_is_owner && !opt_contains(&config.manager, sender) {
        return Err(ContractError::Unauthorized);
    }
    let validated_owner = match new_owner {
        None => None,
        Some(o) => match validate_address(&o) {
            Ok(a) => Some(a),
            Err(_) => {
                return Err(ContractError::InvalidAddress { address: o });
            },
        },
    };
    let validated_manager = match new_manager {
        None => None,
        Some(m) => match validate_address(&m) {
            Ok(a) => Some(a),
            Err(_) => {
                return Err(ContractError::InvalidAddress { address: m });
            },
        },
    };
    let owner_changing = match &validated_owner {
        Some(o) => !opt_contains(&config.owner, o),
        None => false,
    };
    if !sender_is_owner && owner_changing {
        return Err(ContractError::OnlyOwnerCanChangeOwner);
    }
    if let Some(o) = validated_owner {
        config.owner = Some(o);
    }
    if let Some(m) = validated_manager {
        config.manager = Some(m);
    }
    let resp = Response::new().add_attribute("action", String::from_str("update_config"))
        .add_attribute("owner", admin_attr_value(&config.owner)).add_attribute(
        "manager",
        admin_attr_value(&config.manager),
    );
    proof {
        assert(config@ =~= updated_admins(c0, new_owner.deep_view(), new_manager.deep_view()));
        assert(resp@ =~= update_config_attrs(config@));
    }
    Ok(resp)
}

pub open spec fn add_vault_attrs(vault: Seq<char>) -> Seq<(Seq<char>, Seq<char>)> {
    seq![("action"@, "add_vault"@), ("new_vault"@, vault)]
}

pub open spec fn add_vault_outcome(
    c0: AbstractConfig,
    c1: AbstractConfig,
    sender: Seq<char>,
    vault: Seq<char>,
    r: Result<Response, ContractError>,
) -> bool {
    match r {
        Ok(resp) => {
            &&& may_mutate(c0, sender)
            &&& addr_accepted(vault)
            &&& !c0.voting_vaults.contains(vault)
            &&& c1 == with_vault_added(c0, vault)
            &&& resp@ == add_vault_attrs(vault)
        },
        Err(e) => c1 == c0 && match e {
            ContractError::Unauthorized => !may_mutate(c0, sender),
            ContractError::InvalidAddress { address } => may_mutate(c0, sender) && address@ == vault
                && !addr_accepted(vault),
            ContractError::VaultAlreadyPresent { vault: v } => may_mutate(c0, sender)
                && addr_accepted(vault) && v@ == vault && c0.voting_vaults.contains(vault),
            _ => false,
        },
    }
}

/// Append a vault to the registry. Owner or manager may call; a vault that
/// is already configured is rejected.
pub fn execute_add_vault(config: &mut Config, sender: &String, new_vault: String) -> (r: Result<
    Response,
    ContractError,
>)
    requires
        config_wf(old(config)@),
    ensures
        config_wf(final(config)@),
        add_vault_outcome(old(config)@, final(config)@, sender@, new_vault@, r),
{
    let ghost c0 = config@;
    if !opt_contains(&config.owner, sender) && !opt_contains(&config.manager, sender) {
        return Err(ContractError::Unauthorized);
    }
    let validated = match validate_address(&new_vault) {
        Ok(a) => a,
        Err(_) => {
            return Err(ContractError::InvalidAddress { address: new_vault });
        },
    };
    match vault_index(&config.voting_vaults, &validated) {
        Some(i) => {
            proof {
                assert(c0.voting_vaults[i as int] == new_vault@);
                assert(c0.voting_vaults.contains(new_vault@));
            }
            Err(ContractError::VaultAlreadyPresent { vault: new_vault })
        },
        None => {
            proof {
                assert(forall|j: int| 0 <= j < c0.voting_vaults.len()
                    ==> c0.voting_vaults[j] != new_vault@);
                assert(!c0.voting_vaults.contains(new_vault@));
            }
            config.voting_vaults.push(validated);
            let resp = Response::new().add_attribute("action", String::from_str("add_vault"))
                .add_attribute("new_vault", new_vault);
            proof {
                assert(config@.voting_vaults =~= c0.voting_vaults.push(new_vault@));
                assert(config@ =~= with_vault_added(c0, new_vault@));
                assert(resp@ =~= add_vault_attrs(new_vault@));
                lemma_config_op_preserves_wf(c0, ConfigOp::AddVault { vault: new_vault@ });
            }
            Ok(resp)
        },
    }
}

pub open spec fn remove_vault_attrs(vault: Seq<char>) -> Seq<(Seq<char>, Seq<char>)> {
    seq![("action"@, "remove_vault"@), ("old_vault"@, vault)]
}

pub open spec fn remove_vault_outcome(
    c0: AbstractConfig,
    c1: AbstractConfig,
    sender: Seq<char>,
    vault: Seq<char>,
    r: Result<Response, ContractError>,
) -> bool {
    match r {
        Ok(resp) => {
            &&& may_mutate(c0, sender)
            &&& addr_accepted(vault)
            &&& c0.voting_vaults.len() > 1
            &&& (exists|i: int|
                0 <= i < c0.voting_vaults.len() && c0.voting_vaults[i] == vault
                    && c1 == #[trigger] with_vault_removed(c0, i))
            &&& resp@ == remove_vault_attrs(vault)
        },
        Err(e) => c1 == c0 && match e {
            ContractError::Unauthorized => !may_mutate(c0, sender),
            ContractError::InvalidAddress { address } => may_mutate(c0, sender) && address@ == vault
                && !addr_accepted(vault),
            ContractError::RemoveLastVaultForbidden => may_mutate(c0, sender) && addr_accepted(
                vault,
            ) && c0.voting_vaults.len() == 1,
            ContractError::VaultNotFound { vault: v } => may_mutate(c0, sender) && addr_accepted(
                vault,
            ) && v@ == vault && c0.voting_vaults.len() > 1 && !c0.voting_vaults.contains(vault),
            _ => false,
        },
    }
}

/// Remove a vault from the registry. Owner or manager may call; removal
/// that would empty the list is forbidden, and so is removing a vault that
/// is not configured.
pub fn execute_remove_vault(config: &mut Config, sender: &String, old_vault: String) -> (r: Result<
    Response,
    ContractError,
>)
    requires
        config_wf(old(config)@),
    ensures
        config_wf(final(config)@),
        remove_vault_outcome(old(config)@, final(config)@, sender@, old_vault@, r),
{
    let ghost c0 = config@;
    if !opt_contains(&config.owner, sender) && !opt_contains(&config.manager, sender) {
        return Err(ContractError::Unauthorized);
    }
    let validated = match validate_address(&old_vault) {
        Ok(a) => a,
        Err(_) => {
            return Err(ContractError::InvalidAddress { address: old_vault });
        },
    };
    if config.voting_vaults.len() == 1 {
        return Err(ContractError::RemoveLastVaultForbidden);
    }
    match vault_index(&config.voting_vaults, &validated) {
        None => {
            proof {
                assert(forall|j: int| 0 <= j < c0.voting_vaults.len()
                    ==> c0.voting_vaults[j] != old_vault@);
                assert(!c0.voting_vaults.contains(old_vault@));
            }
            Err(ContractError::VaultNotFound { vault: old_vault })
        },
        Some(i) => {
            config.voting_vaults.remove(i);
            let resp = Response::new().add_attribute("action", String::from_str("remove_vault"))
                .add_attribute("old_vault", old_vault);
            proof {
                assert(config@.voting_vaults =~= c0.voting_vaults.remove(i as int));
                assert(config@ =~= with_vault_removed(c0, i as int));
                assert(c0.voting_vaults[i as int] == old_vault@);
                assert(resp@ =~= remove_vault_attrs(old_vault@));
                assert forall|a: int, b: int|
                    0 <= a < b < config@.voting_vaults.len() implies config@.voting_vaults[a]
                    != config@.voting_vaults[b] by {
                    assert(config@.voting_vaults[a] == if a < i as int {
                        c0.voting_vaults[a]
                    } else {
                        c0.voting_vaults[a + 1]
                    });
                    assert(config@.voting_vaults[b] == if b < i as int {
                        c0.voting_vaults[b]
                    } else {
                        c0.voting_vaults[b + 1]
                    });
                }
            }
            Ok(resp)
        },
    }
}

pub open spec fn execute_outcome(
    c0: AbstractConfig,
    c1: AbstractConfig,
    sender: Seq<char>,
    msg: ExecuteMsg,
    r: Result<Response, ContractError>,
) -> bool {
    match msg {
        ExecuteMsg::UpdateConfig { owner, manager } => update_config_outcome(
            c0,
            c1,
            sender,
            owner.deep_view(),
            manager.deep_view(),
            r,
        ),
        ExecuteMsg::AddVotingVault { new_voting_vault_contract } => add_vault_outcome(
            c0,
            c1,
            sender,
            new_voting_vault_contract@,
            r,
        ),
        ExecuteMsg::RemoveVotingVault { old_voting_vault_contract } => remove_vault_outcome(
            c0,
            c1,
            sender,
            old_voting_vault_contract@,
            r,
        ),
    }
}

/// Dispatch one mutation command.
pub fn execute(config: &mut Config, sender: &String, msg: ExecuteMsg) -> (r: Result<
    Response,
    ContractError,
>)
    requires
        config_wf(old(config)@),
    ensures
        config_wf(final(config)@),
        execute_outcome(old(config)@, final(config)@, sender@, msg, r),
{
    match msg {
        ExecuteMsg::UpdateConfig { owner, manager } => execute_update_config(
            config,
            sender,
            owner,
            manager,
        ),
        ExecuteMsg::AddVotingVault { new_voting_vault_contract } => execute_add_vault(
            config,
            sender,
            new_voting_vault_contract,
        ),
        ExecuteMsg::RemoveVotingVault { old_voting_vault_contract } => execute_remove_vault(
            config,
            sender,
            old_voting_vault_contract,
        ),
    }
}

// ---------------------------------------------------------------------------
// Query path
// ---------------------------------------------------------------------------

/// `j` is the first index whose report failed: everything before it
/// answered, it did not.
pub open spec fn first_failing_report(reports: Seq<Result<u128, Seq<char>>>, j: int) -> bool {
    &&& 0 <= j < reports.len()
    &&& reports[j] is Err
    &&& forall|k: int| 0 <= k < j ==> #[trigger] reports[k] is Ok
}

pub open spec fn voting_power_outcome<Q: VaultQuerier>(
    c: AbstractConfig,
    q: Q,
    env_height: u64,
    address: Seq<char>,
    height: Option<u64>,
    r: Result<VotingPowerAtHeightResponse, ContractError>,
) -> bool {
    let h = spec_resolve_height(height, env_height);
    let reports = reported_powers(q, c.voting_vaults, address, h);
    match r {
        Ok(resp) => {
            &&& resp.height == h
            &&& (forall|j: int| 0 <= j < reports.len() ==> #[trigger] reports[j] is Ok)
            &&& resp.power == clamp_u128(sum_powers(reports))
        },
        Err(e) => match e {
            ContractError::Upstream { source, detail } => exists|j: int|
                #[trigger] first_failing_report(reports, j) && source@ == c.voting_vaults[j]
                    && reports[j] == Err::<u128, Seq<char>>(detail@),
            _ => false,
        },
    }
}

pub open spec fn total_power_outcome<Q: VaultQuerier>(
    c: AbstractConfig,
    q: Q,
    env_height: u64,
    height: Option<u64>,
    r: Result<TotalPowerAtHeightResponse, ContractError>,
) -> bool {
    let h = spec_resolve_height(height, env_height);
    let reports = reported_totals(q, c.voting_vaults, h);
    match r {
        Ok(resp) => {
            &&& resp.height == h
            &&& (forall|j: int| 0 <= j < reports.len() ==> #[trigger] reports[j] is Ok)
            &&& resp.power == clamp_u128(sum_powers(reports))
        },
        Err(e) => match e {
            ContractError::Upstream { source, detail } => exists|j: int|
                #[trigger] first_failing_report(reports, j) && source@ == c.voting_vaults[j]
                    && reports[j] == Err::<u128, Seq<char>>(detail@),
            _ => false,
        },
    }
}

/// Voting power of `address` at one resolved height: every configured vault
/// is asked at that same height, in insertion order, the answers are summed
/// saturating at the u128 limit, and the first failing vault aborts the
/// query with its identity.
pub fn query_voting_power_at_height<Q: VaultQuerier>(
    config: &Config,
    querier: &Q,
    env_height: u64,
    address: &String,
    height: Option<u64>,
) -> (r: Result<VotingPowerAtHeightResponse, ContractError>)
    ensures
        voting_power_outcome(config@, *querier, env_height, address@, height, r),
{
    let h = resolve_height(height, env_height);
    let ghost reports = reported_powers(*querier, config@.voting_vaults, address@, h);
    let n = config.voting_vaults.len();
    let mut power: u128 = 0;
    let mut i: usize = 0;
    while i < n
        invariant
            i <= n,
            n == config.voting_vaults@.len(),
            h == spec_resolve_height(height, env_height),
            reports == reported_powers(*querier, config@.voting_vaults, address@, h),
            reports.len() == n,
            forall|j: int| 0 <= j < i ==> #[trigger] reports[j] is Ok,
            power == clamp_u128(sum_powers(reports.subrange(0, i as int))),
        decreases n - i,
    {
        match querier.voting_power(&config.voting_vaults[i], address, h) {
            Ok(p) => {
                proof {
                    let pre = reports.subrange(0, i as int);
                    let post = reports.subrange(0, i as int + 1);
                    assert(post.drop_last() =~= pre);
                    assert(post.last() == reports[i as int]);
                    lemma_sum_powers_nonneg(pre);
                }
                power = power.saturating_add(p);
            },
            Err(detail) => {
                let source = config.voting_vaults[i].clone();
                proof {
                    assert(reports[i as int] == Err::<u128, Seq<char>>(detail@));
                    assert(first_failing_report(reports, i as int));
                    assert(source@ == config@.voting_vaults[i as int]);
                }
                return Err(ContractError::Upstream { source, detail });
            },
        }
        i += 1;
    }
    proof {
        assert(reports.subrange(0, n as int) =~= reports);
    }
    Ok(VotingPowerAtHeightResponse { power, height: h })
}

/// Total voting power at one resolved height: the same fan-out, summation
/// and failure semantics as the per-address query.
pub fn query_total_power_at_height<Q: VaultQuerier>(
    config: &Config,
    querier: &Q,
    env_height: u64,
    height: Option<u64>,
) -> (r: Result<TotalPowerAtHeightResponse, ContractError>)
    ensures
        total_power_outcome(config@, *querier, env_height, height, r),
{
    let h = resolve_height(height, env_height);
    let ghost reports = reported_totals(*querier, config@.voting_vaults, h);
    let n = config.voting_vaults.len();
    let mut power: u128 = 0;
    let mut i: usize = 0;
    while i < n
        invariant
            i <= n,
            n == config.voting_vaults@.len(),
            h == spec_resolve_height(height, env_height),
            reports == reported_totals(*querier, config@.voting_vaults, h),
            reports.len() == n,
            forall|j: int| 0 <= j < i ==> #[trigger] reports[j] is Ok,
            power == clamp_u128(sum_powers(reports.subrange(0, i as int))),
        decreases n - i,
    {
        match querier.total_power(&config.voting_vaults[i], h) {
            Ok(p) => {
                proof {
                    let pre = reports.subrange(0, i as int);
                    let post = reports.subrange(0, i as int + 1);
                    assert(post.drop_last() =~= pre);
                    assert(post.last() == reports[i as int]);
                    lemma_sum_powers_nonneg(pre);
                }
                power = power.saturating_add(p);
            },
            Err(detail) => {
                let source = config.voting_vaults[i].clone();
                proof {
                    assert(reports[i as int] == Err::<u128, Seq<char>>(detail@));
                    assert(first_failing_report(reports, i as int));
                    assert(source@ == config@.voting_vaults[i as int]);
                }
                return Err(ContractError::Upstream { source, detail });
            },
        }
        i += 1;
    }
    proof {
        assert(reports.subrange(0, n as int) =~= reports);
    }
    Ok(TotalPowerAtHeightResponse { power, height: h })
}

/// What each collected report says, over views.
pub open spec fn report_values(reports: Seq<Result<u128, String>>) -> Seq<
    Result<u128, Seq<char>>,
> {
    reports.map_values(
        |r: Result<u128, String>|
            match r {
                Ok(p) => Ok(p),
                Err(d) => Err(d@),
            },
    )
}

/// Combine the per-vault answers of one fan-out, for a host that collects
/// them itself: sum what every vault reported, saturating at the u128
/// limit, or name the first vault in insertion order whose query failed.
pub fn combine_reports(vaults: &Vec<String>, reports: &Vec<Result<u128, String>>) -> (r: Result<
    u128,
    ContractError,
>)
    requires
        vaults@.len() == reports@.len(),
    ensures
        match r {
            Ok(p) => (forall|j: int| 0 <= j < reports@.len() ==> (#[trigger] reports@[j]) is Ok)
                && p == clamp_u128(sum_powers(report_values(reports@))),
            Err(e) => match e {
                ContractError::Upstream { source, detail } => exists|j: int|
                    #[trigger] first_failing_report(report_values(reports@), j) && source@
                        == vaults@[j]@ && report_values(reports@)[j] == Err::<u128, Seq<char>>(
                        detail@,
                    ),
                _ => false,
            },
        },
{
    let ghost values = report_values(reports@);
    let n = reports.len();
    let mut power: u128 = 0;
    let mut i: usize = 0;
    while i < n
        invariant
            i <= n,
            n == reports@.len(),
            n == vaults@.len(),
            values == report_values(reports@),
            values.len() == n,
            forall|j: int| 0 <= j < i ==> (#[trigger] reports@[j]) is Ok,
            power == clamp_u128(sum_powers(values.subrange(0, i as int))),
        decreases n - i,
    {
        match &reports[i] {
            Ok(p) => {
                proof {
                    let pre = values.subrange(0, i as int);
                    let post = values.subrange(0, i as int + 1);
                    assert(post.drop_last() =~= pre);
                    assert(post.last() == values[i as int]);
                    lemma_sum_powers_nonneg(pre);
                }
                power = power.saturating_add(*p);
            },
            Err(detail) => {
                let source = vaults[i].clone();
                let failure = detail.clone();
                proof {
                    assert(values[i as int] == Err::<u128, Seq<char>>(failure@));
                    assert(forall|k: int| 0 <= k < i ==> (#[trigger] values[k]) is Ok);
                    assert(first_failing_report(values, i as int));
                }
                return Err(ContractError::Upstream { source, detail: failure });
            },
        }
        i += 1;
    }
    proof {
        assert(values.subrange(0, n as int) =~= values);
    }
    Ok(power)
}

/// The identity of the DAO this registry was instantiated by.
pub fn query_dao(registry: &Registry) -> (d: String)
    ensures
        d@ == registry.dao@,
{
    registry.dao.clone()
}

/// The stamped contract-version record.
pub fn query_info(store: &MockStorage) -> (r: Result<InfoResponse, ContractError>)
    ensures
        match r {
            Ok(i) => stored_contract_version(*store) == Some(
                (i.info.contract@, i.info.version@),
            ),
            Err(e) => e matches ContractError::Std { .. } && stored_contract_version(*store)
                is None,
        },
{
    match get_stored_version(store) {
        Ok((contract, version)) => Ok(InfoResponse { info: ContractVersion { contract, version } }),
        Err(detail) => Err(ContractError::Std { detail }),
    }
}

/// Bonding is not wired in: the bonder list is always empty.
pub fn query_list_bonders(_start_after: Option<String>, _limit: Option<u32>) -> (r:
    ListBondersResponse)
    ensures
        r.bonders@.len() == 0,
{
    ListBondersResponse { bonders: Vec::new() }
}

/// Bonding is not wired in: nothing is unbondable and bonding is disabled,
/// at whatever height is asked about.
pub fn query_bonding_status(env_height: u64, height: Option<u64>, _address: &String) -> (r:
    BondingStatusResponse)
    ensures
        r.unbondable_abount == 0,
        !r.bonding_enabled,
        r.height == spec_resolve_height(height, env_height),
{
    BondingStatusResponse {
        unbondable_abount: 0,
        bonding_enabled: false,
        height: resolve_height(height, env_height),
    }
}

pub open spec fn query_outcome<Q: VaultQuerier>(
    registry: Registry,
    q: Q,
    env_height: u64,
    msg: QueryMsg,
    r: Result<QueryResponse, ContractError>,
) -> bool {
    match msg {
        QueryMsg::VotingPowerAtHeight { address, height } => match r {
            Ok(QueryResponse::VotingPowerAtHeight(resp)) => voting_power_outcome(
                registry.config@,
                q,
                env_height,
                address@,
                height,
                Ok(resp),
            ),
            Err(e) => voting_power_outcome(
                registry.config@,
                q,
                env_height,
                address@,
                height,
                Err(e),
            ),
            _ => false,
        },
        QueryMsg::TotalPowerAtHeight { height } => match r {
            Ok(QueryResponse::TotalPowerAtHeight(resp)) => total_power_outcome(
                registry.config@,
                q,
                env_height,
                height,
                Ok(resp),
            ),
            Err(e) => total_power_outcome(registry.config@, q, env_height, height, Err(e)),
            _ => false,
        },
        QueryMsg::Info => match r {
            Ok(QueryResponse::Info(i)) => stored_contract_version(registry.store) == Some(
                (i.info.contract@, i.info.version@),
            ),
            Err(e) => e matches ContractError::Std { .. } && stored_contract_version(registry.store)
                is None,
            _ => false,
        },
        QueryMsg::Dao => r matches Ok(QueryResponse::Dao(d)) && d@ == registry.dao@,
        QueryMsg::GetConfig => r matches Ok(QueryResponse::GetConfig(c)) && c@ == registry.config@,
        QueryMsg::ListBonders { .. } => r matches Ok(QueryResponse::ListBonders(resp))
            && resp.bonders@.len() == 0,
        QueryMsg::BondingStatus { height, .. } => r matches Ok(QueryResponse::BondingStatus(resp))
            && resp.unbondable_abount == 0 && !resp.bonding_enabled && resp.height
            == spec_resolve_height(height, env_height),
    }
}

/// Dispatch one query. Queries require no authorization and never change
/// state.
pub fn query<Q: VaultQuerier>(
    registry: &Registry,
    querier: &Q,
    env_height: u64,
    msg: QueryMsg,
) -> (r: Result<QueryResponse, ContractError>)
    ensures
        query_outcome(*registry, *querier, env_height, msg, r),
{
    match msg {
        QueryMsg::VotingPowerAtHeight { address, height } => {
            match query_voting_power_at_height(
                &registry.config,
                querier,
                env_height,
                &address,
                height,
            ) {
                Ok(resp) => Ok(QueryResponse::VotingPowerAtHeight(resp)),
                Err(e) => Err(e),
            }
        },
        QueryMsg::TotalPowerAtHeight { height } => {
            match query_total_power_at_height(&registry.config, querier, env_height, height) {
                Ok(resp) => Ok(QueryResponse::TotalPowerAtHeight(resp)),
                Err(e) => Err(e),
            }
        },
        QueryMsg::Info => {
            match query_info(&registry.store) {
                Ok(i) => Ok(QueryResponse::Info(i)),
                Err(e) => Err(e),
            }
        },
        QueryMsg::Dao => Ok(QueryResponse::Dao(query_dao(registry))),
        QueryMsg::GetConfig => Ok(QueryResponse::GetConfig(registry.config.snapshot())),
        QueryMsg::ListBonders { start_after, limit } => Ok(
            QueryResponse::ListBonders(query_list_bonders(start_after, limit)),
        ),
        QueryMsg::BondingStatus { height, address } => Ok(
            QueryResponse::BondingStatus(query_bonding_status(env_height, height, &address)),
        ),
    }
}

} // verus!
