//! Records held by the contract and the errors its operations report.
use vstd::prelude::*;

verus! {

/// Lifecycle state of a subscription.
#[derive(Clone, Copy, Debug, PartialEq, Eq, Structural)]
pub enum SubscriptionState {
    Active,
    Retrying,
    Failed,
    Cancelled,
}

/// A single-use authorization for one renewal of a subscription.
#[derive(Clone, Copy, Debug, PartialEq, Eq, Structural)]
pub struct RenewalApproval {
    pub sub_id: u64,
    /// Largest amount one renewal under this approval may spend.
    pub max_spend: i128,
    /// Last ledger sequence at which the approval is still valid (inclusive).
    pub expires_at: u32,
    pub used: bool,
}

/// A subscription record. Principals (owner, merchant) are account numbers.
#[derive(Clone, Copy, Debug, PartialEq, Eq)]
pub struct SubscriptionData {
    pub owner: u64,
    pub merchant: u64,
    pub amount: i128,
    /// Billing frequency; informational only.
    pub frequency: u64,
    /// Per-renewal spending cap; 0 means unlimited.
    pub spending_cap: i128,
    /// Reserved extension point; always all zero.
    pub integrity_hash: [u8; 32],
    pub state: SubscriptionState,
    /// Consecutive failed renewals since the last success.
    pub failure_count: u32,
    /// Ledger sequence of the last renewal attempt that reached the outcome.
    pub last_attempt_ledger: u32,
}

/// Why an approval could not be consumed.
#[derive(Clone, Copy, Debug, PartialEq, Eq, Structural)]
pub enum ApprovalRejection {
    Expired,
    AlreadyUsed,
    AmountExceeded,
    NotFound,
}

impl ApprovalRejection {
    /// Numeric reason code carried by the rejection event.
    pub open spec fn spec_code(self) -> u32 {
        match self {
            ApprovalRejection::Expired => 1,
            ApprovalRejection::AlreadyUsed => 2,
            ApprovalRejection::AmountExceeded => 3,
            ApprovalRejection::NotFound => 4,
        }
    }

    pub fn code(&self) -> (r: u32)
        ensures
            r == self.spec_code(),
    {
        match self {
            ApprovalRejection::Expired => 1,
            ApprovalRejection::AlreadyUsed => 2,
            ApprovalRejection::AmountExceeded => 3,
            ApprovalRejection::NotFound => 4,
        }
    }
}

/// Errors that abort a contract call.
#[derive(Clone, Copy, Debug, PartialEq, Eq, Structural)]
pub enum ContractError {
    NotInitialized,
    AlreadyInitialized,
    Unauthorized,
    /// The subscription does not exist.
    NotFound,
    TerminalState,
    DuplicateCycle,
    CooldownActive,
    InvalidApproval(ApprovalRejection),
    SubscriptionCapExceeded,
    GlobalCapExceeded,
    ProtocolPaused,
    AlreadyCancelled,
}

} // verus!
