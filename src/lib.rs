//! Recurring-billing renewal engine: subscriptions between an owner and a
//! merchant, single-use renewal approvals, duplicate-cycle protection,
//! per-subscription and per-owner spending caps, and a failure/retry state
//! machine. Every operation is specified as a transition on [`ContractView`].
pub mod types;
pub mod events;
pub mod contract;
pub mod laws;

pub use types::{ApprovalRejection, ContractError, RenewalApproval, SubscriptionData, SubscriptionState};
pub use events::{
    ApprovalCreated, ApprovalRejected, ContractEvent, DuplicateRenewalRejected, GlobalCapViolated,
    PauseToggled, RenewalFailed, RenewalSuccess, SpendingCapViolated, StateTransition,
    UserCapUpdated,
};
pub use contract::{ContractView, SubscriptionRenewalContract};
