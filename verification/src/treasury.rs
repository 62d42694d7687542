//! Message shapes of the treasury collaborator: the rate-limited periodic
//! fund distributor. Its scheduling logic lives outside this core; only
//! the wire shapes are modelled, on plain values.

use vstd::prelude::*;

verus! {

#[derive(Debug, PartialEq, Eq)]
pub struct InstantiateMsg {
    pub owner: String,
    pub denom: String,
    /// Distribution rate in percent (0-100) which goes to the distribution
    /// contract.
    pub distribution_rate: u8,
    /// Minimum period between distribution calls.
    pub min_period: u64,
    /// Address of the distribution contract.
    pub distribution_contract: String,
    /// Address of the reserve contract.
    pub reserve_contract: String,
}

#[derive(Debug, PartialEq, Eq)]
pub enum ExecuteMsg {
    /// Transfer the contract's ownership to another account.
    TransferOwnership(String),
    /// Distribute pending funds between bank and distribution accounts.
    Distribute {},
    /// Update config.
    UpdateConfig {
        distribution_rate: Option<u8>,
        min_period: Option<u64>,
        distribution_contract: Option<String>,
        reserve_contract: Option<String>,
    },
}

#[derive(Debug, PartialEq, Eq)]
pub enum QueryMsg {
    /// The contract's configuration.
    Config {},
    Stats {},
}

#[derive(Debug, PartialEq, Eq)]
pub struct StatsResponse {
    pub total_received: u128,
    pub total_distributed: u128,
    pub total_reserved: u128,
}

#[derive(Debug, PartialEq, Eq)]
pub enum DistributeMsg {
    Fund {},
}

} // verus!
