//! The overrule pre-propose gate: it accepts exactly one request shape,
//! validates the timelock reference, derives a fixed-content internal
//! proposal with the proposer taken from the authenticated sender, and
//! stamps its own contract version. Handing the internal proposal to the
//! base submission capability is the caller's part; the base outcome is
//! wrapped here so its provenance stays visible.

use vstd::prelude::*;
use vstd::string::StringExecFns;
use cosmwasm_std::testing::MockStorage;
use crate::addr::{addr_accepted, validate_address};
use crate::response::Response;
use crate::version::{set_stored_version, stored_contract_version};

verus! {

/// The one request shape this gate accepts.
#[derive(Clone, Debug, PartialEq, Eq)]
pub enum ProposeMessage {
    ProposeOverrule { timelock_contract: String, proposal_id: u64 },
}

/// What the derived proposal asks the timelock contract to execute.
#[derive(Clone, Debug, PartialEq, Eq)]
pub enum TimelockExecuteMsg {
    OverruleProposal { proposal_id: u64 },
}

#[derive(Clone, Debug, PartialEq, Eq)]
pub struct InstantiateMsg {}

/// Commands of the base pre-propose interface. Only `Propose` is supported
/// by this gate.
pub enum ExecuteMsg {
    Propose { msg: ProposeMessage },
    UpdateConfig { open_proposal_submission: bool },
    Withdraw {},
}

/// One message embedded in a proposal: execute `msg` on `contract_addr`,
/// with no funds attached.
#[derive(Debug, PartialEq, Eq)]
pub struct WasmExecuteCall {
    pub contract_addr: String,
    pub msg: TimelockExecuteMsg,
}

/// The internal form of a propose request. The `proposer` is never
/// caller-settable: it is always derived from the authenticated sender.
#[derive(Debug, PartialEq, Eq)]
pub enum ProposeMessageInternal {
    Propose {
        title: String,
        description: String,
        msgs: Vec<WasmExecuteCall>,
        proposer: Option<String>,
    },
}

#[derive(Debug, PartialEq, Eq)]
pub enum PreProposeOverruleError {
    /// A host-level failure surfaced through the base interface.
    Std { detail: String },
    /// The validator rejected the timelock reference.
    InvalidAddress { address: String },
    /// The base submission capability failed; its message is kept.
    PreProposeBase { detail: String },
    /// Any request shape other than an overrule proposal.
    MessageUnsupported,
}

pub open spec fn spec_overrule_contract_name() -> Seq<char> {
    "crates.io:cwd-pre-propose-single-overrule"@
}

pub open spec fn spec_overrule_contract_version() -> Seq<char> {
    "0.1.0"@
}

pub fn overrule_contract_name() -> (s: &'static str)
    ensures
        s@ == spec_overrule_contract_name(),
{
    "crates.io:cwd-pre-propose-single-overrule"
}

pub fn overrule_contract_version() -> (s: &'static str)
    ensures
        s@ == spec_overrule_contract_version(),
{
    "0.1.0"
}

/// Stamp this gate's contract version; this succeeds on every call. The
/// base capability's own instantiation is delegated outside.
pub fn instantiate(store: &mut MockStorage, _msg: InstantiateMsg) -> (r: Result<
    Response,
    PreProposeOverruleError,
>)
    ensures
        r is Ok,
        match r {
            Ok(resp) => stored_contract_version(*final(store)) == Some(
                (spec_overrule_contract_name(), spec_overrule_contract_version()),
            ) && resp@ == Seq::<(Seq<char>, Seq<char>)>::empty(),
            Err(_) => false,
        },
{
    match set_stored_version(store, overrule_contract_name(), overrule_contract_version()) {
        Ok(()) => Ok(Response::new()),
        Err(detail) => Err(PreProposeOverruleError::Std { detail }),
    }
}

/// What the derived internal proposal must look like for an overrule of
/// `proposal_id` on `timelock`, submitted by `sender`: the fixed title and
/// description, the sender as proposer, and exactly one embedded message
/// invoking the overrule on the timelock.
pub open spec fn derived_overrule_proposal(
    sender: Seq<char>,
    timelock: Seq<char>,
    proposal_id: u64,
    p: ProposeMessageInternal,
) -> bool {
    match p {
        ProposeMessageInternal::Propose { title, description, msgs, proposer } => {
            &&& title@ == "Overrule proposal"@
            &&& description@ == "Reject the decision made by subdao"@
            &&& proposer.deep_view() == Some(sender)
            &&& msgs@.len() == 1
            &&& msgs@[0].contract_addr@ == timelock
            &&& msgs@[0].msg == (TimelockExecuteMsg::OverruleProposal { proposal_id })
        },
    }
}

pub open spec fn execute_overrule_outcome(
    sender: Seq<char>,
    msg: ExecuteMsg,
    r: Result<ProposeMessageInternal, PreProposeOverruleError>,
) -> bool {
    match r {
        Ok(internal) => msg matches ExecuteMsg::Propose {
            msg: ProposeMessage::ProposeOverrule { timelock_contract, proposal_id },
        } && addr_accepted(timelock_contract@) && derived_overrule_proposal(
            sender,
            timelock_contract@,
            proposal_id,
            internal,
        ),
        Err(e) => match e {
            PreProposeOverruleError::MessageUnsupported => !(msg matches ExecuteMsg::Propose {
                ..
            }),
            PreProposeOverruleError::InvalidAddress { address } => msg matches ExecuteMsg::Propose {
                msg: ProposeMessage::ProposeOverrule { timelock_contract, proposal_id },
            } && address@ == timelock_contract@ && !addr_accepted(timelock_contract@),
            _ => false,
        },
    }
}

/// Turn an external overrule request into the internal proposal handed to
/// the base submission capability. Every other request shape is rejected
/// as unsupported.
pub fn execute(sender: &String, msg: ExecuteMsg) -> (r: Result<
    ProposeMessageInternal,
    PreProposeOverruleError,
>)
    ensures
        execute_overrule_outcome(sender@, msg, r),
{
    match msg {
        ExecuteMsg::Propose {
            msg: ProposeMessage::ProposeOverrule { timelock_contract, proposal_id },
        } => {
            let validated = match validate_address(&timelock_contract) {
                Ok(a) => a,
                Err(_) => {
                    return Err(
                        PreProposeOverruleError::InvalidAddress { address: timelock_contract },
                    );
                },
            };
            let overrule_msg = WasmExecuteCall {
                contract_addr: validated,
                msg: TimelockExecuteMsg::OverruleProposal { proposal_id },
            };
            let mut msgs: Vec<WasmExecuteCall> = Vec::new();
            msgs.push(overrule_msg);
            Ok(
                ProposeMessageInternal::Propose {
                    proposer: Some(sender.clone()),
                    title: String::from_str("Overrule proposal"),
                    description: String::from_str("Reject the decision made by subdao"),
                    msgs,
                },
            )
        },
        _ => Err(PreProposeOverruleError::MessageUnsupported),
    }
}

/// Surface the base submission capability's outcome: success verbatim, an
/// error wrapped so its provenance is kept.
pub fn wrap_base_result<T>(result: Result<T, String>) -> (r: Result<T, PreProposeOverruleError>)
    ensures
        match result {
            Ok(v) => r matches Ok(w) && w == v,
            Err(d) => r matches Err(PreProposeOverruleError::PreProposeBase { detail }) && detail@
                == d@,
        },
{
    match result {
        Ok(v) => Ok(v),
        Err(detail) => Err(PreProposeOverruleError::PreProposeBase { detail }),
    }
}

} // verus!
