//! Events recorded by the contract, in call order.
use vstd::prelude::*;
use crate::types::SubscriptionState;

verus! {

#[derive(Clone, Copy, Debug, PartialEq, Eq, Structural)]
pub struct RenewalSuccess {
    pub sub_id: u64,
    pub owner: u64,
}

#[derive(Clone, Copy, Debug, PartialEq, Eq, Structural)]
pub struct RenewalFailed {
    pub sub_id: u64,
    pub failure_count: u32,
    pub ledger: u32,
}

#[derive(Clone, Copy, Debug, PartialEq, Eq, Structural)]
pub struct StateTransition {
    pub sub_id: u64,
    pub new_state: SubscriptionState,
}

#[derive(Clone, Copy, Debug, PartialEq, Eq, Structural)]
pub struct PauseToggled {
    pub paused: bool,
}

#[derive(Clone, Copy, Debug, PartialEq, Eq, Structural)]
pub struct ApprovalCreated {
    pub sub_id: u64,
    pub approval_id: u64,
    pub max_spend: i128,
    pub expires_at: u32,
}

#[derive(Clone, Copy, Debug, PartialEq, Eq, Structural)]
pub struct ApprovalRejected {
    pub sub_id: u64,
    pub approval_id: u64,
    /// 1 = expired, 2 = already used, 3 = amount exceeded, 4 = not found.
    pub reason: u32,
}

#[derive(Clone, Copy, Debug, PartialEq, Eq, Structural)]
pub struct DuplicateRenewalRejected {
    pub sub_id: u64,
    pub cycle_id: u64,
}

#[derive(Clone, Copy, Debug, PartialEq, Eq, Structural)]
pub struct SpendingCapViolated {
    pub sub_id: u64,
    pub amount: i128,
    pub cap: i128,
}

/// `amount` is the owner's spent total that the renewal would have reached.
#[derive(Clone, Copy, Debug, PartialEq, Eq, Structural)]
pub struct GlobalCapViolated {
    pub owner: u64,
    pub amount: i128,
    pub cap: i128,
}

#[derive(Clone, Copy, Debug, PartialEq, Eq, Structural)]
pub struct UserCapUpdated {
    pub user: u64,
    pub cap: i128,
}

/// Any event the contract records.
#[derive(Clone, Copy, Debug, PartialEq, Eq, Structural)]
pub enum ContractEvent {
    RenewalSuccess(RenewalSuccess),
    RenewalFailed(RenewalFailed),
    StateTransition(StateTransition),
    PauseToggled(PauseToggled),
    ApprovalCreated(ApprovalCreated),
    ApprovalRejected(ApprovalRejected),
    DuplicateRenewalRejected(DuplicateRenewalRejected),
    SpendingCapViolated(SpendingCapViolated),
    GlobalCapViolated(GlobalCapViolated),
    UserCapUpdated(UserCapUpdated),
}

} // verus!
