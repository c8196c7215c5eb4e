//! The contract state, its abstract model, and the operations on it.
use vstd::prelude::*;
use std::collections::HashMap;
use crate::types::{ApprovalRejection, ContractError, RenewalApproval, SubscriptionData, SubscriptionState};
use crate::events::{
    ApprovalCreated, ApprovalRejected, ContractEvent, DuplicateRenewalRejected, GlobalCapViolated,
    PauseToggled, RenewalFailed, RenewalSuccess, SpendingCapViolated, StateTransition,
    UserCapUpdated,
};

verus! {

broadcast use vstd::std_specs::hash::group_hash_axioms;

/// Abstract state of the contract.
pub struct ContractView {
    pub admin: Option<u64>,
    pub paused: bool,
    pub subs: Map<u64, SubscriptionData>,
    /// Approvals keyed by (subscription id, approval id).
    pub approvals: Map<(u64, u64), RenewalApproval>,
    /// Last successfully renewed cycle id of each subscription.
    pub cycles: Map<u64, u64>,
    pub user_caps: Map<u64, i128>,
    pub user_spent: Map<u64, i128>,
    /// Every event recorded so far, oldest first.
    pub events: Seq<ContractEvent>,
}

impl ContractView {
    /// The owner's configured global cap; 0 (unlimited) when never set.
    pub open spec fn cap_of(self, user: u64) -> i128 {
        if self.user_caps.contains_key(user) {
            self.user_caps[user]
        } else {
            0
        }
    }

    /// What the owner has spent while capped; 0 when nothing was recorded.
    pub open spec fn spent_of(self, user: u64) -> i128 {
        if self.user_spent.contains_key(user) {
            self.user_spent[user]
        } else {
            0
        }
    }

    pub open spec fn emit(self, e: ContractEvent) -> ContractView {
        ContractView { events: self.events.push(e), ..self }
    }

    pub open spec fn put_sub(self, sub_id: u64, d: SubscriptionData) -> ContractView {
        ContractView { subs: self.subs.insert(sub_id, d), ..self }
    }

    pub open spec fn put_approval(self, sub_id: u64, approval_id: u64, a: RenewalApproval) -> ContractView {
        ContractView { approvals: self.approvals.insert((sub_id, approval_id), a), ..self }
    }

    /// The admin check: `None` when `caller` is the admin.
    pub open spec fn admin_error(self, caller: u64) -> Option<ContractError> {
        match self.admin {
            None => Some(ContractError::NotInitialized),
            Some(a) => if a == caller { None } else { Some(ContractError::Unauthorized) },
        }
    }

    pub open spec fn init_next(self, admin: u64) -> (ContractView, Result<(), ContractError>) {
        if self.admin is Some {
            (self, Err(ContractError::AlreadyInitialized))
        } else {
            (ContractView { admin: Some(admin), paused: false, ..self }, Ok(()))
        }
    }

    pub open spec fn set_paused_next(self, caller: u64, paused: bool) -> (ContractView, Result<(), ContractError>) {
        match self.admin_error(caller) {
            Some(e) => (self, Err(e)),
            None => (
                ContractView { paused, ..self }.emit(ContractEvent::PauseToggled(PauseToggled { paused })),
                Ok(()),
            ),
        }
    }

    pub open spec fn set_user_cap_next(self, caller: u64, user: u64, cap: i128) -> (ContractView, Result<(), ContractError>) {
        match self.admin_error(caller) {
            Some(e) => (self, Err(e)),
            None => (
                ContractView { user_caps: self.user_caps.insert(user, cap), ..self }.emit(
                    ContractEvent::UserCapUpdated(UserCapUpdated { user, cap }),
                ),
                Ok(()),
            ),
        }
    }

    /// A fresh subscription record: active, no failures, never attempted,
    /// with an all-zero integrity hash.
    pub open spec fn is_new_sub(d: SubscriptionData, owner: u64, merchant: u64, amount: i128, frequency: u64, spending_cap: i128) -> bool {
        &&& d.owner == owner
        &&& d.merchant == merchant
        &&& d.amount == amount
        &&& d.frequency == frequency
        &&& d.spending_cap == spending_cap
        &&& d.integrity_hash@ == Seq::new(32, |_i: int| 0u8)
        &&& d.state == SubscriptionState::Active
        &&& d.failure_count == 0
        &&& d.last_attempt_ledger == 0
    }

    pub open spec fn cancel_sub_next(self, caller: u64, sub_id: u64) -> (ContractView, Result<(), ContractError>) {
        if !self.subs.contains_key(sub_id) {
            (self, Err(ContractError::NotFound))
        } else if self.subs[sub_id].owner != caller {
            (self, Err(ContractError::Unauthorized))
        } else if self.subs[sub_id].state == SubscriptionState::Cancelled {
            (self, Err(ContractError::AlreadyCancelled))
        } else {
            (
                self.put_sub(sub_id, SubscriptionData { state: SubscriptionState::Cancelled, ..self.subs[sub_id] }).emit(
                    ContractEvent::StateTransition(StateTransition { sub_id, new_state: SubscriptionState::Cancelled }),
                ),
                Ok(()),
            )
        }
    }

    /// Granting an approval: a used approval is never replaced, so its
    /// `used` flag cannot be reset; an unused one with the same ids is replaced.
    pub open spec fn approve_renewal_next(
        self,
        caller: u64,
        sub_id: u64,
        approval_id: u64,
        max_spend: i128,
        expires_at: u32,
    ) -> (ContractView, Result<(), ContractError>) {
        if !self.subs.contains_key(sub_id) {
            (self, Err(ContractError::NotFound))
        } else if self.subs[sub_id].owner != caller {
            (self, Err(ContractError::Unauthorized))
        } else if self.approvals.contains_key((sub_id, approval_id)) && self.approvals[(sub_id, approval_id)].used {
            (self, Err(ContractError::InvalidApproval(ApprovalRejection::AlreadyUsed)))
        } else {
            (
                self.put_approval(sub_id, approval_id, RenewalApproval { sub_id, max_spend, expires_at, used: false }).emit(
                    ContractEvent::ApprovalCreated(ApprovalCreated { sub_id, approval_id, max_spend, expires_at }),
                ),
                Ok(()),
            )
        }
    }

    /// Why the approval cannot be consumed, checked in this order; `None` when it can.
    pub open spec fn approval_error(self, now: u32, sub_id: u64, approval_id: u64, amount: i128) -> Option<ApprovalRejection> {
        if !self.approvals.contains_key((sub_id, approval_id)) {
            Some(ApprovalRejection::NotFound)
        } else {
            let a = self.approvals[(sub_id, approval_id)];
            if a.used {
                Some(ApprovalRejection::AlreadyUsed)
            } else if now > a.expires_at {
                Some(ApprovalRejection::Expired)
            } else if amount > a.max_spend {
                Some(ApprovalRejection::AmountExceeded)
            } else {
                None
            }
        }
    }

    /// Consuming an approval marks it used; a rejection only records an event.
    pub open spec fn consume_next(self, now: u32, sub_id: u64, approval_id: u64, amount: i128) -> (ContractView, Result<(), ApprovalRejection>) {
        match self.approval_error(now, sub_id, approval_id, amount) {
            Some(r) => (
                self.emit(ContractEvent::ApprovalRejected(ApprovalRejected { sub_id, approval_id, reason: r.spec_code() })),
                Err(r),
            ),
            None => (
                self.put_approval(sub_id, approval_id, RenewalApproval { used: true, ..self.approvals[(sub_id, approval_id)] }),
                Ok(()),
            ),
        }
    }

    /// The cooldown guard of a renewal: it applies only after a failure.
    pub open spec fn in_cooldown(self, sub_id: u64, now: u32, cooldown_ledgers: u32) -> bool {
        let d = self.subs[sub_id];
        d.failure_count > 0 && now < d.last_attempt_ledger + cooldown_ledgers
    }

    /// Whether `cycle_id` is the last cycle of `sub_id` that renewed successfully.
    pub open spec fn is_duplicate_cycle(self, sub_id: u64, cycle_id: u64) -> bool {
        self.cycles.contains_key(sub_id) && self.cycles[sub_id] == cycle_id
    }

    /// Whether a renewal gets past every guard before the approval step.
    pub open spec fn reaches_approval(self, now: u32, sub_id: u64, cooldown_ledgers: u32, cycle_id: u64) -> bool {
        &&& !self.paused
        &&& self.subs.contains_key(sub_id)
        &&& self.subs[sub_id].state != SubscriptionState::Failed
        &&& !self.is_duplicate_cycle(sub_id, cycle_id)
        &&& !self.in_cooldown(sub_id, now, cooldown_ledgers)
    }

    /// The bounds under which a renewal's arithmetic stays in range. They
    /// only concern a call that gets past the approval and subscription-cap
    /// checks: a capped owner's new total must fit in `i128`, and a failed
    /// payment that passes the global cap must leave room in the failure counter.
    pub open spec fn renew_in_range(
        self,
        now: u32,
        sub_id: u64,
        approval_id: u64,
        amount: i128,
        cooldown_ledgers: u32,
        cycle_id: u64,
        succeed: bool,
    ) -> bool {
        let d = self.subs[sub_id];
        let cap = self.cap_of(d.owner);
        let total = self.spent_of(d.owner) + amount;
        (self.reaches_approval(now, sub_id, cooldown_ledgers, cycle_id)
            && self.approval_error(now, sub_id, approval_id, amount) is None
            && !(d.spending_cap > 0 && amount > d.spending_cap)) ==> {
            &&& cap > 0 ==> i128::MIN <= total <= i128::MAX
            &&& !succeed && !(cap > 0 && total > cap) ==> d.failure_count < u32::MAX
        }
    }

    /// The outcome of a renewal whose guards all passed and whose payment went through.
    pub open spec fn renewal_succeeded(self, now: u32, sub_id: u64, amount: i128, cycle_id: u64) -> ContractView {
        let d = self.subs[sub_id];
        let owner = d.owner;
        let s = ContractView {
            subs: self.subs.insert(
                sub_id,
                SubscriptionData { state: SubscriptionState::Active, failure_count: 0, last_attempt_ledger: now, ..d },
            ),
            cycles: self.cycles.insert(sub_id, cycle_id),
            user_spent: if self.cap_of(owner) > 0 {
                self.user_spent.insert(owner, (self.spent_of(owner) + amount) as i128)
            } else {
                self.user_spent
            },
            ..self
        };
        s.emit(ContractEvent::RenewalSuccess(RenewalSuccess { sub_id, owner }))
    }

    /// The state a failed payment leaves: Failed once the failures exceed `max_retries`.
    pub open spec fn failed_state(failure_count: u32, max_retries: u32) -> SubscriptionState {
        if failure_count > max_retries {
            SubscriptionState::Failed
        } else {
            SubscriptionState::Retrying
        }
    }

    /// The outcome of a renewal whose guards all passed but whose payment failed.
    pub open spec fn renewal_failed(self, now: u32, sub_id: u64, max_retries: u32) -> ContractView {
        let d = self.subs[sub_id];
        let count = (d.failure_count + 1) as u32;
        let state = Self::failed_state(count, max_retries);
        self.put_sub(sub_id, SubscriptionData { state, failure_count: count, last_attempt_ledger: now, ..d })
            .emit(ContractEvent::RenewalFailed(RenewalFailed { sub_id, failure_count: count, ledger: now }))
            .emit(ContractEvent::StateTransition(StateTransition { sub_id, new_state: state }))
    }

    /// A renewal attempt. The guards run in order and the first that fails
    /// decides the error; only the approval step, once passed, stays consumed
    /// when a later cap check fails.
    pub open spec fn renew_next(
        self,
        now: u32,
        sub_id: u64,
        approval_id: u64,
        amount: i128,
        max_retries: u32,
        cooldown_ledgers: u32,
        cycle_id: u64,
        succeed: bool,
    ) -> (ContractView, Result<bool, ContractError>) {
        if self.paused {
            (self, Err(ContractError::ProtocolPaused))
        } else if !self.subs.contains_key(sub_id) {
            (self, Err(ContractError::NotFound))
        } else if self.subs[sub_id].state == SubscriptionState::Failed {
            (self, Err(ContractError::TerminalState))
        } else if self.is_duplicate_cycle(sub_id, cycle_id) {
            (
                self.emit(ContractEvent::DuplicateRenewalRejected(DuplicateRenewalRejected { sub_id, cycle_id })),
                Err(ContractError::DuplicateCycle),
            )
        } else if self.in_cooldown(sub_id, now, cooldown_ledgers) {
            (self, Err(ContractError::CooldownActive))
        } else {
            let d = self.subs[sub_id];
            let (s1, consumed) = self.consume_next(now, sub_id, approval_id, amount);
            let cap = s1.cap_of(d.owner);
            let total = s1.spent_of(d.owner) + amount;
            match consumed {
                Err(reason) => (s1, Err(ContractError::InvalidApproval(reason))),
                Ok(()) => if d.spending_cap > 0 && amount > d.spending_cap {
                    (
                        s1.emit(ContractEvent::SpendingCapViolated(SpendingCapViolated { sub_id, amount, cap: d.spending_cap })),
                        Err(ContractError::SubscriptionCapExceeded),
                    )
                } else if cap > 0 && total > cap {
                    (
                        s1.emit(ContractEvent::GlobalCapViolated(GlobalCapViolated { owner: d.owner, amount: total as i128, cap })),
                        Err(ContractError::GlobalCapExceeded),
                    )
                } else if succeed {
                    (s1.renewal_succeeded(now, sub_id, amount, cycle_id), Ok(true))
                } else {
                    (s1.renewal_failed(now, sub_id, max_retries), Ok(false))
                },
            }
        }
    }
}

/// Flattens the approvals, held per subscription, into one map keyed by both ids.
pub closed spec fn flatten_approvals(m: Map<u64, HashMap<u64, RenewalApproval>>) -> Map<(u64, u64), RenewalApproval> {
    Map::new(
        |k: (u64, u64)| m.contains_key(k.0) && m[k.0]@.contains_key(k.1),
        |k: (u64, u64)| m[k.0]@[k.1],
    )
}

/// Contract state: subscriptions, approvals, cycle records, the cap ledger and
/// the event log. Principals are account numbers.
pub struct SubscriptionRenewalContract {
    admin: Option<u64>,
    paused: bool,
    subs: HashMap<u64, SubscriptionData>,
    approvals: HashMap<u64, HashMap<u64, RenewalApproval>>,
    cycles: HashMap<u64, u64>,
    user_caps: HashMap<u64, i128>,
    user_spent: HashMap<u64, i128>,
    events: Vec<ContractEvent>,
}

impl View for SubscriptionRenewalContract {
    type V = ContractView;

    closed spec fn view(&self) -> ContractView {
        ContractView {
            admin: self.admin,
            paused: self.paused,
            subs: self.subs@,
            approvals: flatten_approvals(self.approvals@),
            cycles: self.cycles@,
            user_caps: self.user_caps@,
            user_spent: self.user_spent@,
            events: self.events@,
        }
    }
}

impl SubscriptionRenewalContract {
    /// A freshly deployed contract: no admin, not paused, every store empty.
    pub fn new() -> (r: Self)
        ensures
            r@.admin is None,
            !r@.paused,
            r@.subs == Map::<u64, SubscriptionData>::empty(),
            r@.approvals == Map::<(u64, u64), RenewalApproval>::empty(),
            r@.cycles == Map::<u64, u64>::empty(),
            r@.user_caps == Map::<u64, i128>::empty(),
            r@.user_spent == Map::<u64, i128>::empty(),
            r@.events == Seq::<ContractEvent>::empty(),
    {
        let r = SubscriptionRenewalContract {
            admin: None,
            paused: false,
            subs: HashMap::new(),
            approvals: HashMap::new(),
            cycles: HashMap::new(),
            user_caps: HashMap::new(),
            user_spent: HashMap::new(),
            events: Vec::new(),
        };
        assert(r@.approvals =~= Map::<(u64, u64), RenewalApproval>::empty());
        r
    }

    fn emit(&mut self, e: ContractEvent)
        ensures
            final(self)@ == old(self)@.emit(e),
    {
        self.events.push(e);
    }

    /// Sets the admin; a second initialization is refused.
    pub fn init(&mut self, admin: u64) -> (r: Result<(), ContractError>)
        ensures
            (final(self)@, r) == old(self)@.init_next(admin),
    {
        if self.admin.is_some() {
            return Err(ContractError::AlreadyInitialized);
        }
        self.admin = Some(admin);
        self.paused = false;
        Ok(())
    }

    /// Checks that `caller` is the admin.
    fn require_admin(&self, caller: u64) -> (r: Result<(), ContractError>)
        ensures
            r == (match self@.admin_error(caller) {
                Some(e) => Err(e),
                None => Ok(()),
            }),
    {
        match self.admin {
            None => Err(ContractError::NotInitialized),
            Some(a) => if a == caller { Ok(()) } else { Err(ContractError::Unauthorized) },
        }
    }

    /// Pauses or resumes renewals. Admin only.
    pub fn set_paused(&mut self, caller: u64, paused: bool) -> (r: Result<(), ContractError>)
        ensures
            (final(self)@, r) == old(self)@.set_paused_next(caller, paused),
    {
        match self.require_admin(caller) {
            Err(e) => Err(e),
            Ok(()) => {
                self.paused = paused;
                self.emit(ContractEvent::PauseToggled(PauseToggled { paused }));
                Ok(())
            },
        }
    }

    /// Whether renewals are paused.
    pub fn is_paused(&self) -> (r: bool)
        ensures
            r == self@.paused,
    {
        self.paused
    }

    /// Creates (or silently replaces) subscription `sub_id`.
    pub fn init_sub(&mut self, owner: u64, merchant: u64, amount: i128, frequency: u64, spending_cap: i128, sub_id: u64)
        ensures
            final(self)@ == old(self)@.put_sub(sub_id, final(self)@.subs[sub_id]),
            ContractView::is_new_sub(final(self)@.subs[sub_id], owner, merchant, amount, frequency, spending_cap),
    {
        let data = SubscriptionData {
            owner,
            merchant,
            amount,
            frequency,
            spending_cap,
            integrity_hash: [0u8; 32],
            state: SubscriptionState::Active,
            failure_count: 0,
            last_attempt_ledger: 0,
        };
        assert(data.integrity_hash@ =~= Seq::new(32, |_i: int| 0u8));
        self.subs.insert(sub_id, data);
    }
    /// Sets `user`'s global spending cap, overwriting any earlier one. Admin only.
    pub fn set_user_cap(&mut self, caller: u64, user: u64, cap: i128) -> (r: Result<(), ContractError>)
        ensures
            (final(self)@, r) == old(self)@.set_user_cap_next(caller, user, cap),
    {
        match self.require_admin(caller) {
            Err(e) => Err(e),
            Ok(()) => {
                self.user_caps.insert(user, cap);
                self.emit(ContractEvent::UserCapUpdated(UserCapUpdated { user, cap }));
                Ok(())
            },
        }
    }

    /// `user`'s global spending cap; 0 (unlimited) when none was set.
    pub fn get_user_cap(&self, user: u64) -> (r: i128)
        ensures
            r == self@.cap_of(user),
    {
        match self.user_caps.get(&user) {
            Some(c) => *c,
            None => 0,
        }
    }

    /// What `user` has spent while a cap was configured.
    pub fn get_user_spent(&self, user: u64) -> (r: i128)
        ensures
            r == self@.spent_of(user),
    {
        match self.user_spent.get(&user) {
            Some(v) => *v,
            None => 0,
        }
    }

    /// Cancels a subscription on behalf of its owner. Cancelling twice is refused.
    pub fn cancel_sub(&mut self, caller: u64, sub_id: u64) -> (r: Result<(), ContractError>)
        ensures
            (final(self)@, r) == old(self)@.cancel_sub_next(caller, sub_id),
    {
        let mut data = match self.subs.get(&sub_id) {
            Some(d) => *d,
            None => return Err(ContractError::NotFound),
        };
        if data.owner != caller {
            return Err(ContractError::Unauthorized);
        }
        if data.state == SubscriptionState::Cancelled {
            return Err(ContractError::AlreadyCancelled);
        }
        data.state = SubscriptionState::Cancelled;
        self.subs.insert(sub_id, data);
        self.emit(ContractEvent::StateTransition(StateTransition { sub_id, new_state: SubscriptionState::Cancelled }));
        Ok(())
    }

    fn lookup_approval(&self, sub_id: u64, approval_id: u64) -> (r: Option<RenewalApproval>)
        ensures
            r == (if self@.approvals.contains_key((sub_id, approval_id)) {
                Some(self@.approvals[(sub_id, approval_id)])
            } else {
                None
            }),
    {
        match self.approvals.get(&sub_id) {
            None => None,
            Some(inner) => match inner.get(&approval_id) {
                Some(a) => Some(*a),
                None => None,
            },
        }
    }

    fn store_approval(&mut self, sub_id: u64, approval_id: u64, a: RenewalApproval)
        ensures
            final(self)@ == old(self)@.put_approval(sub_id, approval_id, a),
    {
        let ghost pre = self@;
        let mut inner = match self.approvals.remove(&sub_id) {
            Some(m) => m,
            None => HashMap::new(),
        };
        inner.insert(approval_id, a);
        self.approvals.insert(sub_id, inner);
        assert(self@.approvals =~= pre.approvals.insert((sub_id, approval_id), a));
    }

    /// Grants a single-use renewal approval. Owner only. An unused approval with
    /// the same ids is replaced; a used one is kept and the call is refused.
    pub fn approve_renewal(&mut self, caller: u64, sub_id: u64, approval_id: u64, max_spend: i128, expires_at: u32) -> (r: Result<(), ContractError>)
        ensures
            (final(self)@, r) == old(self)@.approve_renewal_next(caller, sub_id, approval_id, max_spend, expires_at),
    {
        let owner = match self.subs.get(&sub_id) {
            Some(d) => d.owner,
            None => return Err(ContractError::NotFound),
        };
        if owner != caller {
            return Err(ContractError::Unauthorized);
        }
        match self.lookup_approval(sub_id, approval_id) {
            Some(a) => if a.used {
                return Err(ContractError::InvalidApproval(ApprovalRejection::AlreadyUsed));
            },
            None => {},
        }
        self.store_approval(sub_id, approval_id, RenewalApproval { sub_id, max_spend, expires_at, used: false });
        self.emit(ContractEvent::ApprovalCreated(ApprovalCreated { sub_id, approval_id, max_spend, expires_at }));
        Ok(())
    }

    /// Checks the approval at ledger sequence `now` and marks it used. A
    /// rejection records an event carrying its reason code and changes nothing else.
    pub fn consume_approval(&mut self, now: u32, sub_id: u64, approval_id: u64, amount: i128) -> (r: Result<(), ApprovalRejection>)
        ensures
            (final(self)@, r) == old(self)@.consume_next(now, sub_id, approval_id, amount),
    {
        let reason = match self.lookup_approval(sub_id, approval_id) {
            None => ApprovalRejection::NotFound,
            Some(a) => {
                if a.used {
                    ApprovalRejection::AlreadyUsed
                } else if now > a.expires_at {
                    ApprovalRejection::Expired
                } else if amount > a.max_spend {
                    ApprovalRejection::AmountExceeded
                } else {
                    self.store_approval(sub_id, approval_id, RenewalApproval { used: true, ..a });
                    return Ok(());
                }
            },
        };
        self.emit(ContractEvent::ApprovalRejected(ApprovalRejected { sub_id, approval_id, reason: reason.code() }));
        Err(reason)
    }

    /// Attempts one renewal of `sub_id` at ledger sequence `now`, for billing
    /// cycle `cycle_id`; `succeed` is the outcome of the payment. Returns
    /// whether the payment went through.
    pub fn renew(
        &mut self,
        now: u32,
        sub_id: u64,
        approval_id: u64,
        amount: i128,
        max_retries: u32,
        cooldown_ledgers: u32,
        cycle_id: u64,
        succeed: bool,
    ) -> (r: Result<bool, ContractError>)
        requires
            old(self)@.renew_in_range(now, sub_id, approval_id, amount, cooldown_ledgers, cycle_id, succeed),
        ensures
            (final(self)@, r) == old(self)@.renew_next(
                now,
                sub_id,
                approval_id,
                amount,
                max_retries,
                cooldown_ledgers,
                cycle_id,
                succeed,
            ),
    {
        if self.paused {
            return Err(ContractError::ProtocolPaused);
        }
        let mut data = match self.subs.get(&sub_id) {
            Some(d) => *d,
            None => return Err(ContractError::NotFound),
        };
        if data.state == SubscriptionState::Failed {
            return Err(ContractError::TerminalState);
        }
        let last_cycle = match self.cycles.get(&sub_id) {
            Some(c) => Some(*c),
            None => None,
        };
        if last_cycle == Some(cycle_id) {
            self.emit(ContractEvent::DuplicateRenewalRejected(DuplicateRenewalRejected { sub_id, cycle_id }));
            return Err(ContractError::DuplicateCycle);
        }
        if data.failure_count > 0 && (now as u64) < data.last_attempt_ledger as u64 + cooldown_ledgers as u64 {
            return Err(ContractError::CooldownActive);
        }
        match self.consume_approval(now, sub_id, approval_id, amount) {
            Err(reason) => return Err(ContractError::InvalidApproval(reason)),
            Ok(()) => {},
        }
        if data.spending_cap > 0 && amount > data.spending_cap {
            self.emit(ContractEvent::SpendingCapViolated(SpendingCapViolated { sub_id, amount, cap: data.spending_cap }));
            return Err(ContractError::SubscriptionCapExceeded);
        }
        let owner = data.owner;
        let global_cap = self.get_user_cap(owner);
        if global_cap > 0 {
            let current_spent = self.get_user_spent(owner);
            if current_spent + amount > global_cap {
                self.emit(ContractEvent::GlobalCapViolated(GlobalCapViolated { owner, amount: current_spent + amount, cap: global_cap }));
                return Err(ContractError::GlobalCapExceeded);
            }
        }
        if succeed {
            data.state = SubscriptionState::Active;
            data.failure_count = 0;
            data.last_attempt_ledger = now;
            self.subs.insert(sub_id, data);
            self.cycles.insert(sub_id, cycle_id);
            if global_cap > 0 {
                let current_spent = self.get_user_spent(owner);
                self.user_spent.insert(owner, current_spent + amount);
            }
            self.emit(ContractEvent::RenewalSuccess(RenewalSuccess { sub_id, owner }));
            Ok(true)
        } else {
            data.failure_count = data.failure_count + 1;
            data.last_attempt_ledger = now;
            data.state = if data.failure_count > max_retries {
                SubscriptionState::Failed
            } else {
                SubscriptionState::Retrying
            };
            self.subs.insert(sub_id, data);
            self.emit(ContractEvent::RenewalFailed(RenewalFailed { sub_id, failure_count: data.failure_count, ledger: now }));
            self.emit(ContractEvent::StateTransition(StateTransition { sub_id, new_state: data.state }));
            Ok(false)
        }
    }

    /// The subscription record of `sub_id`.
    pub fn get_sub(&self, sub_id: u64) -> (r: Result<SubscriptionData, ContractError>)
        ensures
            r == (if self@.subs.contains_key(sub_id) {
                Ok(self@.subs[sub_id])
            } else {
                Err(ContractError::NotFound)
            }),
    {
        match self.subs.get(&sub_id) {
            Some(d) => Ok(*d),
            None => Err(ContractError::NotFound),
        }
    }

    /// Every event recorded so far, oldest first.
    pub fn events(&self) -> (r: &Vec<ContractEvent>)
        ensures
            r@ == self@.events,
    {
        &self.events
    }
}

} // verus!
