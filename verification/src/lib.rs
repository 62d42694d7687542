//! Historical voting-power aggregation and authorization core of a DAO
//! voting registry.
//!
//! The registry keeps an owner/manager-gated, never-empty, duplicate-free
//! list of voting-vault identifiers, answers height-indexed voting-power
//! queries by fanning out over that list and summing what every vault
//! reports at one resolved height, and stamps contract-version metadata
//! through cw2. A small pre-propose gate turns an external overrule
//! request into the internal proposal handed to the base submission
//! capability.

pub mod addr;
pub mod response;
pub mod overrule;
pub mod power;
pub mod registry;
pub mod treasury;
pub mod version;
