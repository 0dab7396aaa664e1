//! The messages of the upgrade module of a Cosmos chain.

use vstd::prelude::*;
use crate::protobuf::Any;
use crate::protobuf::Timestamp;

verus! {

/// Plan specifies information about a planned upgrade and when it should
/// occur.
#[derive(Clone, Debug, Default, PartialEq)]
pub struct Plan {
    /// Sets the name for the upgrade. The upgraded version of the software
    /// uses this name to apply its "on-upgrade" commands during the first
    /// block after the upgrade, and to tell whether it can handle a given
    /// upgrade.
    pub name: String,
    /// The time after which the upgrade must be performed. Left unset to use
    /// a pre-defined height instead.
    pub time: Option<Timestamp>,
    /// The height at which the upgrade must be performed. Only used if the
    /// time is not set.
    pub height: i64,
    /// Any application specific upgrade info to be included on-chain, such as
    /// a git commit that validators could automatically upgrade to.
    pub info: String,
    /// The client state that the chain will have after the upgrade. A chain
    /// may commit to it before the upgrade, so that connected chains can
    /// verify their new client against the old chain.
    pub upgraded_client_state: Option<Any>,
}

/// SoftwareUpgradeProposal is a governance proposal for initiating a
/// software upgrade.
#[derive(Clone, Debug, Default, PartialEq)]
pub struct SoftwareUpgradeProposal {
    pub title: String,
    pub description: String,
    pub plan: Option<Plan>,
}

/// CancelSoftwareUpgradeProposal is a governance proposal for cancelling a
/// software upgrade.
#[derive(Clone, Debug, Default, PartialEq)]
pub struct CancelSoftwareUpgradeProposal {
    pub title: String,
    pub description: String,
}

/// QueryCurrentPlanRequest is the request of the query for the current plan.
#[derive(Clone, Debug, Default, PartialEq)]
pub struct QueryCurrentPlanRequest {}

/// QueryCurrentPlanResponse is the response of the query for the current
/// plan.
#[derive(Clone, Debug, Default, PartialEq)]
pub struct QueryCurrentPlanResponse {
    /// The current upgrade plan.
    pub plan: Option<Plan>,
}

/// QueryAppliedPlanRequest is the request of the query for an applied plan.
#[derive(Clone, Debug, Default, PartialEq)]
pub struct QueryAppliedPlanRequest {
    /// The name of the applied plan to query for.
    pub name: String,
}

/// QueryAppliedPlanResponse is the response of the query for an applied
/// plan.
#[derive(Clone, Debug, Default, PartialEq)]
pub struct QueryAppliedPlanResponse {
    /// The block height at which the plan was applied.
    pub height: i64,
}

/// QueryUpgradedConsensusStateRequest is the request of the query for the
/// consensus state that an upgrade will start from.
#[derive(Clone, Debug, Default, PartialEq)]
pub struct QueryUpgradedConsensusStateRequest {
    /// The last height of the current chain: the height under which the next
    /// consensus state is stored.
    pub last_height: i64,
}

/// QueryUpgradedConsensusStateResponse is the response of the query for the
/// consensus state that an upgrade will start from.
#[derive(Clone, Debug, Default, PartialEq)]
pub struct QueryUpgradedConsensusStateResponse {
    pub upgraded_consensus_state: Option<Any>,
}

} // verus!
