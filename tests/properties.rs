use subscription_renewal::{
    ApprovalRejected, ApprovalRejection, ContractError, ContractEvent, DuplicateRenewalRejected,
    GlobalCapViolated, RenewalFailed, SpendingCapViolated, StateTransition,
    SubscriptionRenewalContract, SubscriptionState,
};

const ADMIN: u64 = 1;
const U: u64 = 2;
const M: u64 = 3;

fn setup_sub(spending_cap: i128) -> SubscriptionRenewalContract {
    let mut c = SubscriptionRenewalContract::new();
    c.init(ADMIN).unwrap();
    c.init_sub(U, M, 10, 30, spending_cap, 1);
    c
}

#[test]
fn scenario_a_renew_without_approval() {
    let mut c = setup_sub(0);
    assert_eq!(
        c.renew(0, 1, 1, 10, 3, 5, 1, true),
        Err(ContractError::InvalidApproval(ApprovalRejection::NotFound))
    );
    assert_eq!(
        c.events().last(),
        Some(&ContractEvent::ApprovalRejected(ApprovalRejected { sub_id: 1, approval_id: 1, reason: 4 }))
    );
    let data = c.get_sub(1).unwrap();
    assert_eq!(data.failure_count, 0);
    assert_eq!(data.state, SubscriptionState::Active);
}

#[test]
fn scenario_b_approved_renewal_succeeds() {
    let mut c = setup_sub(0);
    c.approve_renewal(U, 1, 1, 100, 50).unwrap();
    assert_eq!(c.renew(10, 1, 1, 50, 3, 5, 7, true), Ok(true));
    let data = c.get_sub(1).unwrap();
    assert_eq!(data.state, SubscriptionState::Active);
    assert_eq!(data.failure_count, 0);
    assert_eq!(data.last_attempt_ledger, 10);
}

#[test]
fn scenario_c_repeated_cycle_is_duplicate() {
    let mut c = setup_sub(0);
    c.approve_renewal(U, 1, 1, 100, 50).unwrap();
    assert_eq!(c.renew(10, 1, 1, 50, 3, 5, 7, true), Ok(true));
    // Repeating the whole scenario: the spent approval cannot be granted again,
    // and the renewal is refused as a duplicate cycle.
    assert_eq!(
        c.approve_renewal(U, 1, 1, 100, 50),
        Err(ContractError::InvalidApproval(ApprovalRejection::AlreadyUsed))
    );
    assert_eq!(c.renew(10, 1, 1, 50, 3, 5, 7, true), Err(ContractError::DuplicateCycle));
    assert_eq!(
        c.events().last(),
        Some(&ContractEvent::DuplicateRenewalRejected(DuplicateRenewalRejected { sub_id: 1, cycle_id: 7 }))
    );
    // The dedup guard runs before the approval step: a fresh approval is left unused.
    c.approve_renewal(U, 1, 2, 100, 50).unwrap();
    assert_eq!(c.renew(10, 1, 2, 50, 3, 5, 7, true), Err(ContractError::DuplicateCycle));
    assert_eq!(c.renew(10, 1, 2, 50, 3, 5, 8, true), Ok(true));
}

#[test]
fn used_approval_cannot_be_granted_again() {
    let mut c = setup_sub(0);
    c.approve_renewal(U, 1, 1, 100, 50).unwrap();
    // An unused approval may be replaced.
    c.approve_renewal(U, 1, 1, 20, 50).unwrap();
    assert_eq!(c.consume_approval(5, 1, 1, 30), Err(ApprovalRejection::AmountExceeded));
    assert_eq!(c.consume_approval(5, 1, 1, 20), Ok(()));
    let before = c.events().len();
    assert_eq!(
        c.approve_renewal(U, 1, 1, 100, 50),
        Err(ContractError::InvalidApproval(ApprovalRejection::AlreadyUsed))
    );
    assert_eq!(c.events().len(), before);
    assert_eq!(c.consume_approval(5, 1, 1, 10), Err(ApprovalRejection::AlreadyUsed));
}

#[test]
fn scenario_d_zero_retries_is_terminal() {
    let mut c = setup_sub(0);
    c.approve_renewal(U, 1, 1, 100, 50).unwrap();
    assert_eq!(c.renew(10, 1, 1, 50, 0, 5, 7, false), Ok(false));
    let data = c.get_sub(1).unwrap();
    assert_eq!(data.failure_count, 1);
    assert_eq!(data.state, SubscriptionState::Failed);
    let n = c.events().len();
    assert_eq!(
        c.events()[n - 2],
        ContractEvent::RenewalFailed(RenewalFailed { sub_id: 1, failure_count: 1, ledger: 10 })
    );
    assert_eq!(
        c.events()[n - 1],
        ContractEvent::StateTransition(StateTransition { sub_id: 1, new_state: SubscriptionState::Failed })
    );
    c.approve_renewal(U, 1, 2, 100, 50).unwrap();
    assert_eq!(c.renew(40, 1, 2, 50, 0, 5, 8, true), Err(ContractError::TerminalState));
}

#[test]
fn scenario_e_global_cap() {
    let mut c = setup_sub(0);
    c.set_user_cap(ADMIN, U, 100).unwrap();
    c.approve_renewal(U, 1, 1, 100, 50).unwrap();
    assert_eq!(c.renew(10, 1, 1, 60, 3, 5, 1, true), Ok(true));
    assert_eq!(c.get_user_spent(U), 60);
    c.approve_renewal(U, 1, 2, 100, 50).unwrap();
    assert_eq!(c.renew(11, 1, 2, 41, 3, 5, 2, true), Err(ContractError::GlobalCapExceeded));
    assert_eq!(c.get_user_spent(U), 60);
    assert_eq!(
        c.events().last(),
        Some(&ContractEvent::GlobalCapViolated(GlobalCapViolated { owner: U, amount: 101, cap: 100 }))
    );
}

#[test]
fn global_cap_exact_boundary_passes() {
    let mut c = setup_sub(0);
    c.set_user_cap(ADMIN, U, 100).unwrap();
    c.approve_renewal(U, 1, 1, 100, 50).unwrap();
    assert_eq!(c.renew(10, 1, 1, 60, 3, 5, 1, true), Ok(true));
    c.approve_renewal(U, 1, 2, 100, 50).unwrap();
    assert_eq!(c.renew(11, 1, 2, 40, 3, 5, 2, true), Ok(true));
    assert_eq!(c.get_user_spent(U), 100);
}

#[test]
fn subscription_cap_boundary() {
    let mut c = setup_sub(50);
    c.approve_renewal(U, 1, 1, 100, 50).unwrap();
    assert_eq!(c.renew(10, 1, 1, 50, 3, 5, 1, true), Ok(true));
    c.approve_renewal(U, 1, 2, 100, 50).unwrap();
    assert_eq!(c.renew(11, 1, 2, 51, 3, 5, 2, true), Err(ContractError::SubscriptionCapExceeded));
    assert_eq!(
        c.events().last(),
        Some(&ContractEvent::SpendingCapViolated(SpendingCapViolated { sub_id: 1, amount: 51, cap: 50 }))
    );
}

#[test]
fn cap_failure_still_burns_approval() {
    let mut c = setup_sub(50);
    c.approve_renewal(U, 1, 1, 100, 50).unwrap();
    assert_eq!(c.renew(10, 1, 1, 60, 3, 5, 1, true), Err(ContractError::SubscriptionCapExceeded));
    assert_eq!(
        c.renew(10, 1, 1, 40, 3, 5, 1, true),
        Err(ContractError::InvalidApproval(ApprovalRejection::AlreadyUsed))
    );
}

#[test]
fn approval_consumed_once() {
    let mut c = setup_sub(0);
    c.approve_renewal(U, 1, 1, 100, 50).unwrap();
    assert_eq!(c.consume_approval(5, 1, 1, 10), Ok(()));
    assert_eq!(c.consume_approval(5, 1, 1, 10), Err(ApprovalRejection::AlreadyUsed));
    assert_eq!(c.consume_approval(60, 1, 1, 1_000), Err(ApprovalRejection::AlreadyUsed));
    assert_eq!(
        c.events().last(),
        Some(&ContractEvent::ApprovalRejected(ApprovalRejected { sub_id: 1, approval_id: 1, reason: 2 }))
    );
}

#[test]
fn approval_expiry_is_inclusive() {
    let mut c = setup_sub(0);
    c.approve_renewal(U, 1, 1, 100, 50).unwrap();
    c.approve_renewal(U, 1, 2, 100, 50).unwrap();
    assert_eq!(c.consume_approval(51, 1, 1, 10), Err(ApprovalRejection::Expired));
    assert_eq!(
        c.events().last(),
        Some(&ContractEvent::ApprovalRejected(ApprovalRejected { sub_id: 1, approval_id: 1, reason: 1 }))
    );
    assert_eq!(c.consume_approval(50, 1, 2, 10), Ok(()));
}

#[test]
fn approval_amount_ceiling() {
    let mut c = setup_sub(0);
    c.approve_renewal(U, 1, 1, 100, 50).unwrap();
    assert_eq!(c.consume_approval(5, 1, 1, 101), Err(ApprovalRejection::AmountExceeded));
    assert_eq!(
        c.events().last(),
        Some(&ContractEvent::ApprovalRejected(ApprovalRejected { sub_id: 1, approval_id: 1, reason: 3 }))
    );
    assert_eq!(c.consume_approval(5, 1, 1, 100), Ok(()));
}

#[test]
fn approvals_are_keyed_by_subscription_too() {
    let mut c = setup_sub(0);
    c.init_sub(U, M, 10, 30, 0, 2);
    c.approve_renewal(U, 1, 1, 100, 50).unwrap();
    assert_eq!(c.consume_approval(5, 2, 1, 10), Err(ApprovalRejection::NotFound));
    assert_eq!(c.consume_approval(5, 1, 1, 10), Ok(()));
}

#[test]
fn rejection_reason_codes() {
    assert_eq!(ApprovalRejection::Expired.code(), 1);
    assert_eq!(ApprovalRejection::AlreadyUsed.code(), 2);
    assert_eq!(ApprovalRejection::AmountExceeded.code(), 3);
    assert_eq!(ApprovalRejection::NotFound.code(), 4);
}

#[test]
fn failed_cycle_may_be_retried() {
    let mut c = setup_sub(0);
    c.approve_renewal(U, 1, 1, 100, 50).unwrap();
    assert_eq!(c.renew(10, 1, 1, 50, 3, 5, 7, false), Ok(false));
    c.approve_renewal(U, 1, 2, 100, 50).unwrap();
    assert_eq!(c.renew(15, 1, 2, 50, 3, 5, 7, true), Ok(true));
}

#[test]
fn cooldown_boundary_after_failure() {
    let mut c = setup_sub(0);
    c.approve_renewal(U, 1, 1, 100, 50).unwrap();
    assert_eq!(c.renew(10, 1, 1, 50, 3, 5, 7, false), Ok(false));
    c.approve_renewal(U, 1, 2, 100, 50).unwrap();
    assert_eq!(c.renew(14, 1, 2, 50, 3, 5, 7, true), Err(ContractError::CooldownActive));
    assert_eq!(c.renew(15, 1, 2, 50, 3, 5, 7, true), Ok(true));
}

#[test]
fn no_cooldown_without_failures() {
    let mut c = setup_sub(0);
    c.approve_renewal(U, 1, 1, 100, 50).unwrap();
    assert_eq!(c.renew(0, 1, 1, 50, 3, 1_000, 7, true), Ok(true));
    c.approve_renewal(U, 1, 2, 100, 50).unwrap();
    assert_eq!(c.renew(0, 1, 2, 50, 3, 1_000, 8, true), Ok(true));
}

#[test]
fn spend_uncapped_is_not_counted() {
    let mut c = setup_sub(0);
    c.approve_renewal(U, 1, 1, 100, 50).unwrap();
    assert_eq!(c.renew(10, 1, 1, 30, 3, 5, 1, true), Ok(true));
    assert_eq!(c.get_user_spent(U), 0);
    c.set_user_cap(ADMIN, U, 100).unwrap();
    assert_eq!(c.get_user_cap(U), 100);
    assert_eq!(c.get_user_spent(U), 0);
}

#[test]
fn reads_leave_state_alone() {
    let mut c = setup_sub(0);
    c.set_user_cap(ADMIN, U, 100).unwrap();
    let before = c.events().len();
    let a = c.get_sub(1);
    let cap = c.get_user_cap(U);
    let spent = c.get_user_spent(U);
    assert_eq!(c.get_sub(1), a);
    assert_eq!(c.get_user_cap(U), cap);
    assert_eq!(c.get_user_spent(U), spent);
    assert_eq!(c.events().len(), before);
    assert_eq!(c.get_user_cap(7), 0);
    assert_eq!(c.get_user_spent(7), 0);
}

#[test]
fn new_subscription_record() {
    let c = setup_sub(25);
    let d = c.get_sub(1).unwrap();
    assert_eq!(d.owner, U);
    assert_eq!(d.merchant, M);
    assert_eq!(d.amount, 10);
    assert_eq!(d.frequency, 30);
    assert_eq!(d.spending_cap, 25);
    assert_eq!(d.integrity_hash, [0u8; 32]);
    assert_eq!(d.last_attempt_ledger, 0);
    assert_eq!(c.get_sub(2), Err(ContractError::NotFound));
}

#[test]
fn cancellation_rules() {
    let mut c = setup_sub(0);
    assert_eq!(c.cancel_sub(U, 9), Err(ContractError::NotFound));
    assert_eq!(c.cancel_sub(M, 1), Err(ContractError::Unauthorized));
    assert_eq!(c.cancel_sub(U, 1), Ok(()));
    assert_eq!(c.get_sub(1).unwrap().state, SubscriptionState::Cancelled);
    assert_eq!(
        c.events().last(),
        Some(&ContractEvent::StateTransition(StateTransition { sub_id: 1, new_state: SubscriptionState::Cancelled }))
    );
    assert_eq!(c.cancel_sub(U, 1), Err(ContractError::AlreadyCancelled));
}

#[test]
fn failed_subscription_can_be_cancelled() {
    let mut c = setup_sub(0);
    c.approve_renewal(U, 1, 1, 100, 50).unwrap();
    assert_eq!(c.renew(10, 1, 1, 50, 0, 5, 7, false), Ok(false));
    assert_eq!(c.cancel_sub(U, 1), Ok(()));
    assert_eq!(c.get_sub(1).unwrap().state, SubscriptionState::Cancelled);
}

#[test]
fn admin_and_owner_checks() {
    let mut fresh = SubscriptionRenewalContract::new();
    assert!(!fresh.is_paused());
    assert_eq!(fresh.set_paused(ADMIN, true), Err(ContractError::NotInitialized));
    assert_eq!(fresh.set_user_cap(ADMIN, U, 5), Err(ContractError::NotInitialized));

    let mut c = setup_sub(0);
    assert_eq!(c.set_paused(U, true), Err(ContractError::Unauthorized));
    assert!(!c.is_paused());
    assert_eq!(c.set_user_cap(U, U, 5), Err(ContractError::Unauthorized));
    assert_eq!(c.get_user_cap(U), 0);
    assert_eq!(c.approve_renewal(M, 1, 1, 100, 50), Err(ContractError::Unauthorized));
    assert_eq!(c.approve_renewal(U, 9, 1, 100, 50), Err(ContractError::NotFound));
    assert_eq!(c.renew(0, 9, 1, 10, 3, 5, 1, true), Err(ContractError::NotFound));
}
