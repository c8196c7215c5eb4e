//! Properties of the renewal engine, proved over the transitions of [`ContractView`].
use vstd::prelude::*;
use crate::contract::ContractView;
use crate::types::{ApprovalRejection, ContractError, SubscriptionState};

verus! {

/// A renewal that reports a successful payment leaves the subscription Active
/// with no failures, last attempted at `now`, and `cycle_id` recorded as its
/// last successful cycle.
pub proof fn lemma_success_resets_failures(
    s: ContractView,
    now: u32,
    sub_id: u64,
    approval_id: u64,
    amount: i128,
    max_retries: u32,
    cooldown_ledgers: u32,
    cycle_id: u64,
    succeed: bool,
)
    requires
        s.renew_next(now, sub_id, approval_id, amount, max_retries, cooldown_ledgers, cycle_id, succeed).1
            == Ok::<bool, ContractError>(true),
    ensures
        ({
            let t = s.renew_next(now, sub_id, approval_id, amount, max_retries, cooldown_ledgers, cycle_id, succeed).0;
            &&& t.subs[sub_id].failure_count == 0
            &&& t.subs[sub_id].last_attempt_ledger == now
            &&& t.subs[sub_id].state == SubscriptionState::Active
            &&& t.cycles[sub_id] == cycle_id
        }),
{
}

/// A renewal that reports a failed payment adds exactly one to the failure
/// count, records `now` as the last attempt, and leaves the subscription
/// Failed when the new count exceeds `max_retries`, Retrying otherwise. The
/// cycle record is untouched.
pub proof fn lemma_failure_counts_once(
    s: ContractView,
    now: u32,
    sub_id: u64,
    approval_id: u64,
    amount: i128,
    max_retries: u32,
    cooldown_ledgers: u32,
    cycle_id: u64,
    succeed: bool,
)
    requires
        s.renew_next(now, sub_id, approval_id, amount, max_retries, cooldown_ledgers, cycle_id, succeed).1
            == Ok::<bool, ContractError>(false),
        s.renew_in_range(now, sub_id, approval_id, amount, cooldown_ledgers, cycle_id, succeed),
    ensures
        ({
            let t = s.renew_next(now, sub_id, approval_id, amount, max_retries, cooldown_ledgers, cycle_id, succeed).0;
            &&& t.subs[sub_id].failure_count == s.subs[sub_id].failure_count + 1
            &&& t.subs[sub_id].last_attempt_ledger == now
            &&& (t.subs[sub_id].state == SubscriptionState::Failed) == (t.subs[sub_id].failure_count > max_retries)
            &&& (t.subs[sub_id].state == SubscriptionState::Retrying) == (t.subs[sub_id].failure_count <= max_retries)
            &&& t.cycles == s.cycles
        }),
{
}

/// A rejected renewal changes no subscription, cycle record or spent total:
/// only an approval consumed before a failed cap check, and events, remain.
pub proof fn lemma_rejection_keeps_records(
    s: ContractView,
    now: u32,
    sub_id: u64,
    approval_id: u64,
    amount: i128,
    max_retries: u32,
    cooldown_ledgers: u32,
    cycle_id: u64,
    succeed: bool,
)
    requires
        s.renew_next(now, sub_id, approval_id, amount, max_retries, cooldown_ledgers, cycle_id, succeed).1 is Err,
    ensures
        ({
            let t = s.renew_next(now, sub_id, approval_id, amount, max_retries, cooldown_ledgers, cycle_id, succeed).0;
            &&& t.subs == s.subs
            &&& t.cycles == s.cycles
            &&& t.user_caps == s.user_caps
            &&& t.user_spent == s.user_spent
            &&& t.paused == s.paused
            &&& t.admin == s.admin
        }),
{
}

/// An approval is consumed at most once: after one successful consumption,
/// any further one rejects it as already used, whatever the time and amount.
pub proof fn lemma_approval_single_use(
    s: ContractView,
    now: u32,
    sub_id: u64,
    approval_id: u64,
    amount: i128,
    later: u32,
    other_amount: i128,
)
    requires
        s.consume_next(now, sub_id, approval_id, amount).1 is Ok,
    ensures
        s.consume_next(now, sub_id, approval_id, amount).0.consume_next(later, sub_id, approval_id, other_amount).1
            == Err::<(), ApprovalRejection>(ApprovalRejection::AlreadyUsed),
{
}

/// The same through renewals: once a renewal has returned a result, a later
/// renewal under the same approval that gets past the earlier guards is
/// rejected as using an already used approval.
pub proof fn lemma_renewal_burns_approval(
    s: ContractView,
    now: u32,
    sub_id: u64,
    approval_id: u64,
    amount: i128,
    max_retries: u32,
    cooldown_ledgers: u32,
    cycle_id: u64,
    succeed: bool,
    now2: u32,
    amount2: i128,
    max_retries2: u32,
    cooldown2: u32,
    cycle2: u64,
    succeed2: bool,
)
    requires
        s.renew_next(now, sub_id, approval_id, amount, max_retries, cooldown_ledgers, cycle_id, succeed).1 is Ok,
        s.renew_next(now, sub_id, approval_id, amount, max_retries, cooldown_ledgers, cycle_id, succeed).0.reaches_approval(
            now2,
            sub_id,
            cooldown2,
            cycle2,
        ),
    ensures
        s.renew_next(now, sub_id, approval_id, amount, max_retries, cooldown_ledgers, cycle_id, succeed).0.renew_next(
            now2,
            sub_id,
            approval_id,
            amount2,
            max_retries2,
            cooldown2,
            cycle2,
            succeed2,
        ).1 == Err::<bool, ContractError>(ContractError::InvalidApproval(ApprovalRejection::AlreadyUsed)),
{
}

/// Repeating the cycle id of a successful renewal is rejected as a
/// duplicate, whatever the other arguments.
pub proof fn lemma_successful_cycle_not_repeated(
    s: ContractView,
    now: u32,
    sub_id: u64,
    approval_id: u64,
    amount: i128,
    max_retries: u32,
    cooldown_ledgers: u32,
    cycle_id: u64,
    now2: u32,
    approval2: u64,
    amount2: i128,
    max_retries2: u32,
    cooldown2: u32,
    succeed2: bool,
)
    requires
        s.renew_next(now, sub_id, approval_id, amount, max_retries, cooldown_ledgers, cycle_id, true).1
            == Ok::<bool, ContractError>(true),
    ensures
        s.renew_next(now, sub_id, approval_id, amount, max_retries, cooldown_ledgers, cycle_id, true).0.renew_next(
            now2,
            sub_id,
            approval2,
            amount2,
            max_retries2,
            cooldown2,
            cycle_id,
            succeed2,
        ).1 == Err::<bool, ContractError>(ContractError::DuplicateCycle),
{
}

/// Repeating the cycle id of a renewal whose payment failed is never
/// rejected as a duplicate.
pub proof fn lemma_failed_cycle_may_retry(
    s: ContractView,
    now: u32,
    sub_id: u64,
    approval_id: u64,
    amount: i128,
    max_retries: u32,
    cooldown_ledgers: u32,
    cycle_id: u64,
    now2: u32,
    approval2: u64,
    amount2: i128,
    max_retries2: u32,
    cooldown2: u32,
    succeed2: bool,
)
    requires
        s.renew_next(now, sub_id, approval_id, amount, max_retries, cooldown_ledgers, cycle_id, false).1
            == Ok::<bool, ContractError>(false),
    ensures
        s.renew_next(now, sub_id, approval_id, amount, max_retries, cooldown_ledgers, cycle_id, false).0.renew_next(
            now2,
            sub_id,
            approval2,
            amount2,
            max_retries2,
            cooldown2,
            cycle_id,
            succeed2,
        ).1 != Err::<bool, ContractError>(ContractError::DuplicateCycle),
{
}

/// A subscription with no recorded failures is never held back by a
/// cooldown, whatever its length.
pub proof fn lemma_cooldown_needs_failures(
    s: ContractView,
    now: u32,
    sub_id: u64,
    approval_id: u64,
    amount: i128,
    max_retries: u32,
    cooldown_ledgers: u32,
    cycle_id: u64,
    succeed: bool,
)
    requires
        s.subs.contains_key(sub_id) ==> s.subs[sub_id].failure_count == 0,
    ensures
        s.renew_next(now, sub_id, approval_id, amount, max_retries, cooldown_ledgers, cycle_id, succeed).1
            != Err::<bool, ContractError>(ContractError::CooldownActive),
{
}

/// The per-subscription cap admits an amount equal to it and refuses one
/// unit more: for a renewal that gets past the approval step, the cap is
/// exceeded exactly when a nonzero cap is below the amount.
pub proof fn lemma_subscription_cap_boundary(
    s: ContractView,
    now: u32,
    sub_id: u64,
    approval_id: u64,
    amount: i128,
    max_retries: u32,
    cooldown_ledgers: u32,
    cycle_id: u64,
    succeed: bool,
)
    requires
        s.reaches_approval(now, sub_id, cooldown_ledgers, cycle_id),
        s.consume_next(now, sub_id, approval_id, amount).1 is Ok,
    ensures
        (s.renew_next(now, sub_id, approval_id, amount, max_retries, cooldown_ledgers, cycle_id, succeed).1
            == Err::<bool, ContractError>(ContractError::SubscriptionCapExceeded)) == (s.subs[sub_id].spending_cap > 0
            && amount > s.subs[sub_id].spending_cap),
        s.subs[sub_id].spending_cap > 0 && amount == s.subs[sub_id].spending_cap ==> s.renew_next(
            now,
            sub_id,
            approval_id,
            amount,
            max_retries,
            cooldown_ledgers,
            cycle_id,
            succeed,
        ).1 != Err::<bool, ContractError>(ContractError::SubscriptionCapExceeded),
        s.subs[sub_id].spending_cap > 0 && amount == s.subs[sub_id].spending_cap + 1 ==> s.renew_next(
            now,
            sub_id,
            approval_id,
            amount,
            max_retries,
            cooldown_ledgers,
            cycle_id,
            succeed,
        ).1 == Err::<bool, ContractError>(ContractError::SubscriptionCapExceeded),
{
}

/// The owner's global cap admits a renewal that brings the spent total
/// exactly to the cap and refuses one that goes one unit over: for a renewal
/// within the subscription's own cap, the global cap is exceeded exactly when
/// a nonzero cap is below spent plus amount.
pub proof fn lemma_global_cap_boundary(
    s: ContractView,
    now: u32,
    sub_id: u64,
    approval_id: u64,
    amount: i128,
    max_retries: u32,
    cooldown_ledgers: u32,
    cycle_id: u64,
    succeed: bool,
)
    requires
        s.reaches_approval(now, sub_id, cooldown_ledgers, cycle_id),
        s.consume_next(now, sub_id, approval_id, amount).1 is Ok,
        !(s.subs[sub_id].spending_cap > 0 && amount > s.subs[sub_id].spending_cap),
    ensures
        ({
            let owner = s.subs[sub_id].owner;
            let cap = s.cap_of(owner);
            let total = s.spent_of(owner) + amount;
            let r = s.renew_next(now, sub_id, approval_id, amount, max_retries, cooldown_ledgers, cycle_id, succeed).1;
            &&& (r == Err::<bool, ContractError>(ContractError::GlobalCapExceeded)) == (cap > 0 && total > cap)
            &&& cap > 0 && total == cap ==> r != Err::<bool, ContractError>(ContractError::GlobalCapExceeded)
            &&& cap > 0 && total == cap + 1 ==> r == Err::<bool, ContractError>(ContractError::GlobalCapExceeded)
        }),
{
}

/// A successful renewal adds the amount to a capped owner's spent total and
/// leaves an uncapped owner's total as it was.
pub proof fn lemma_spend_accrues_only_when_capped(
    s: ContractView,
    now: u32,
    sub_id: u64,
    approval_id: u64,
    amount: i128,
    max_retries: u32,
    cooldown_ledgers: u32,
    cycle_id: u64,
    succeed: bool,
)
    requires
        s.renew_next(now, sub_id, approval_id, amount, max_retries, cooldown_ledgers, cycle_id, succeed).1
            == Ok::<bool, ContractError>(true),
        s.renew_in_range(now, sub_id, approval_id, amount, cooldown_ledgers, cycle_id, succeed),
    ensures
        ({
            let owner = s.subs[sub_id].owner;
            let t = s.renew_next(now, sub_id, approval_id, amount, max_retries, cooldown_ledgers, cycle_id, succeed).0;
            &&& s.cap_of(owner) > 0 ==> t.spent_of(owner) == s.spent_of(owner) + amount
            &&& s.cap_of(owner) <= 0 ==> t.spent_of(owner) == s.spent_of(owner)
        }),
{
}

/// Failed is terminal for renewals: every renewal of a Failed subscription
/// is rejected, unless the protocol is paused, which is reported first.
pub proof fn lemma_failed_is_terminal(
    s: ContractView,
    now: u32,
    sub_id: u64,
    approval_id: u64,
    amount: i128,
    max_retries: u32,
    cooldown_ledgers: u32,
    cycle_id: u64,
    succeed: bool,
)
    requires
        !s.paused,
        s.subs.contains_key(sub_id),
        s.subs[sub_id].state == SubscriptionState::Failed,
    ensures
        s.renew_next(now, sub_id, approval_id, amount, max_retries, cooldown_ledgers, cycle_id, succeed)
            == (s, Err::<bool, ContractError>(ContractError::TerminalState)),
{
}

/// No operation that touches approvals ever turns a used approval back into
/// an unused one: not consuming, not a renewal, not granting an approval again.
pub proof fn lemma_used_approval_stays_used(
    s: ContractView,
    now: u32,
    sub_id: u64,
    approval_id: u64,
    amount: i128,
    max_retries: u32,
    cooldown_ledgers: u32,
    cycle_id: u64,
    succeed: bool,
    caller: u64,
    max_spend: i128,
    expires_at: u32,
    key: (u64, u64),
)
    requires
        s.approvals.contains_key(key),
        s.approvals[key].used,
    ensures
        ({
            let t = s.consume_next(now, sub_id, approval_id, amount).0;
            t.approvals.contains_key(key) && t.approvals[key].used
        }),
        ({
            let t = s.renew_next(now, sub_id, approval_id, amount, max_retries, cooldown_ledgers, cycle_id, succeed).0;
            t.approvals.contains_key(key) && t.approvals[key].used
        }),
        ({
            let t = s.approve_renewal_next(caller, sub_id, approval_id, max_spend, expires_at).0;
            t.approvals.contains_key(key) && t.approvals[key].used
        }),
{
}

} // verus!
