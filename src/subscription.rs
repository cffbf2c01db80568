//! The subscription engine: plans, enrolment, interval-enforced pull
//! charges drawn on the customer's allowance, and cancellation.
use vstd::prelude::*;
use crate::errors::ContractError;
use crate::invoice::{fee_amount, fee_for_amount};
use crate::shade::{step, Shade, ShadeView};
use crate::types::{
    Address, Event, Subscription, SubscriptionPlan, SubscriptionStatus, Transfer, TransferKind,
};

verus! {

/// Whether a charge at `now` comes too early after the last one at `last`;
/// a subscription never charged (`last == 0`) can be charged at once.
pub open spec fn charge_too_early(last: u64, interval: u64, now: u64) -> bool {
    last > 0 && now < last + interval
}

impl ShadeView {
    /// Why `create_plan` fails, if it does.
    pub open spec fn create_plan_error(self, merchant: Address, amount: i128, token: Address, interval: u64) -> Option<ContractError> {
        if self.paused {
            Some(ContractError::ContractPaused)
        } else if !self.is_merchant(merchant) {
            Some(ContractError::MerchantNotFound)
        } else if amount <= 0 {
            Some(ContractError::InvalidAmount)
        } else if interval == 0 {
            Some(ContractError::InvalidInterval)
        } else if !self.accepted_tokens.contains(token) {
            Some(ContractError::TokenNotAccepted)
        } else {
            None
        }
    }

    /// The state after `merchant` creates a plan at `now`.
    pub open spec fn with_plan(
        self,
        merchant: Address,
        description: String,
        amount: i128,
        token: Address,
        interval: u64,
        now: u64,
    ) -> ShadeView {
        let id = (self.plans.len() + 1) as u64;
        ShadeView {
            plans: self.plans.push(SubscriptionPlan {
                id,
                merchant_id: self.merchant_id(merchant)->0,
                merchant,
                description,
                token,
                amount,
                interval,
                active: true,
            }),
            events: self.events.push(Event::SubscriptionPlanCreated {
                plan_id: id,
                merchant,
                token,
                amount,
                interval,
                timestamp: now,
            }),
            ..self
        }
    }

    /// Why `subscribe` fails, if it does.
    pub open spec fn subscribe_error(self, plan_id: u64) -> Option<ContractError> {
        if self.paused {
            Some(ContractError::ContractPaused)
        } else if !self.plan_exists(plan_id) {
            Some(ContractError::PlanNotFound)
        } else if !self.plan(plan_id).active {
            Some(ContractError::PlanNotActive)
        } else {
            None
        }
    }

    /// The state after `customer` subscribes to plan `plan_id` at `now`.
    pub open spec fn with_subscription(self, customer: Address, plan_id: u64, now: u64) -> ShadeView {
        let id = (self.subscriptions.len() + 1) as u64;
        ShadeView {
            subscriptions: self.subscriptions.push(Subscription {
                id,
                plan_id,
                customer,
                merchant_id: self.plan(plan_id).merchant_id,
                status: SubscriptionStatus::Active,
                date_created: now,
                last_charge_date: 0,
            }),
            events: self.events.push(
                Event::Subscribed { subscription_id: id, plan_id, customer, timestamp: now },
            ),
            ..self
        }
    }

    /// Why `charge_subscription` fails, if it does.
    pub open spec fn charge_error(self, id: u64, now: u64) -> Option<ContractError> {
        let sub = self.subscription(id);
        if self.paused {
            Some(ContractError::ContractPaused)
        } else if !self.subscription_exists(id) {
            Some(ContractError::SubscriptionNotFound)
        } else if sub.status != SubscriptionStatus::Active {
            Some(ContractError::SubscriptionNotActive)
        } else if charge_too_early(sub.last_charge_date, self.plan(sub.plan_id).interval, now) {
            Some(ContractError::ChargeTooEarly)
        } else if self.merchant_account(sub.merchant_id) is None {
            Some(ContractError::MerchantAccountNotSet)
        } else {
            None
        }
    }

    /// The fee on one charge of subscription `id`.
    pub open spec fn charge_fee(self, id: u64) -> i128 {
        let plan = self.plan(self.subscription(id).plan_id);
        fee_amount(plan.amount, self.fee_of(plan.token)) as i128
    }

    /// The token movements of one charge of subscription `id`, drawn on the
    /// customer's allowance: the amount less the fee to the merchant account,
    /// then the fee, when there is one, to this contract.
    pub open spec fn charge_transfers(self, id: u64) -> Seq<Transfer> {
        let sub = self.subscription(id);
        let plan = self.plan(sub.plan_id);
        let fee = self.charge_fee(id);
        let net = Transfer {
            kind: TransferKind::Allowance,
            token: plan.token,
            from: sub.customer,
            to: self.merchant_account(sub.merchant_id)->0,
            amount: (plan.amount - fee) as i128,
        };
        if fee > 0 {
            seq![net, Transfer { kind: TransferKind::Allowance, token: plan.token, from: sub.customer, to: self.contract, amount: fee }]
        } else {
            seq![net]
        }
    }

    /// The state after subscription `id` is charged at `now`.
    pub open spec fn charged(self, id: u64, now: u64) -> ShadeView {
        let sub = self.subscription(id);
        let plan = self.plan(sub.plan_id);
        ShadeView {
            subscriptions: self.subscriptions.update(id - 1, Subscription { last_charge_date: now, ..sub }),
            transfers: self.transfers + self.charge_transfers(id),
            events: self.events.push(Event::SubscriptionCharged {
                subscription_id: id,
                plan_id: plan.id,
                customer: sub.customer,
                merchant: plan.merchant,
                amount: plan.amount,
                fee: self.charge_fee(id),
                token: plan.token,
                timestamp: now,
            }),
            ..self
        }
    }

    /// Why `cancel_subscription` fails, if it does.
    pub open spec fn cancel_error(self, caller: Address, id: u64) -> Option<ContractError> {
        let sub = self.subscription(id);
        if self.paused {
            Some(ContractError::ContractPaused)
        } else if !self.subscription_exists(id) {
            Some(ContractError::SubscriptionNotFound)
        } else if sub.status != SubscriptionStatus::Active {
            Some(ContractError::SubscriptionNotActive)
        } else if caller != sub.customer && caller != self.plan(sub.plan_id).merchant {
            Some(ContractError::NotAuthorized)
        } else {
            None
        }
    }

    /// The state after `caller` cancels subscription `id` at `now`.
    pub open spec fn cancelled(self, caller: Address, id: u64, now: u64) -> ShadeView {
        ShadeView {
            subscriptions: self.subscriptions.update(
                id - 1,
                Subscription { status: SubscriptionStatus::Cancelled, ..self.subscription(id) },
            ),
            events: self.events.push(
                Event::SubscriptionCancelled { subscription_id: id, caller, timestamp: now },
            ),
            ..self
        }
    }
}

impl Shade {
    /// Creates a plan of `merchant` that bills `amount` of `token` every
    /// `interval` seconds, and returns its id.
    pub fn create_plan(
        &mut self,
        merchant: &Address,
        description: String,
        amount: i128,
        token: &Address,
        interval: u64,
        now: u64,
    ) -> (r: Result<u64, ContractError>)
        requires
            old(self)@.wf(),
            old(self)@.plans.len() < u64::MAX,
        ensures
            final(self)@.wf(),
            old(self)@.evolves_to(final(self)@),
            step(r, old(self)@.create_plan_error(*merchant, amount, *token, interval), old(self)@, final(self)@, old(self)@.with_plan(*merchant, description, amount, *token, interval, now)),
            r matches Ok(id) ==> id == old(self)@.plans.len() + 1,
    {
        self.assert_not_paused()?;
        let merchant_id = match self.find_merchant(merchant) {
            Some(id) => id,
            None => return Err(ContractError::MerchantNotFound),
        };
        if amount <= 0 {
            return Err(ContractError::InvalidAmount);
        }
        if interval == 0 {
            return Err(ContractError::InvalidInterval);
        }
        if !self.token_accepted(token) {
            return Err(ContractError::TokenNotAccepted);
        }
        let id = self.plans.len() as u64 + 1;
        self.plans.push(SubscriptionPlan {
            id,
            merchant_id,
            merchant: *merchant,
            description,
            token: *token,
            amount,
            interval,
            active: true,
        });
        self.events.push(Event::SubscriptionPlanCreated {
            plan_id: id,
            merchant: *merchant,
            token: *token,
            amount,
            interval,
            timestamp: now,
        });
        Ok(id)
    }

    /// The plan with id `id`.
    pub fn get_plan(&self, id: u64) -> (r: Result<&SubscriptionPlan, ContractError>)
        ensures
            !self@.plan_exists(id) ==> r == Err::<&SubscriptionPlan, ContractError>(ContractError::PlanNotFound),
            self@.plan_exists(id) ==> r == Ok::<&SubscriptionPlan, ContractError>(&self@.plan(id)),
    {
        if id == 0 || id > self.plans.len() as u64 {
            return Err(ContractError::PlanNotFound);
        }
        Ok(&self.plans[(id - 1) as usize])
    }

    /// Enrols `customer` in active plan `plan_id` and returns the new
    /// subscription's id. Charges draw on the allowance the customer grants
    /// this contract on the plan's token.
    pub fn subscribe(&mut self, customer: &Address, plan_id: u64, now: u64) -> (r: Result<u64, ContractError>)
        requires
            old(self)@.wf(),
            old(self)@.subscriptions.len() < u64::MAX,
        ensures
            final(self)@.wf(),
            old(self)@.evolves_to(final(self)@),
            step(r, old(self)@.subscribe_error(plan_id), old(self)@, final(self)@, old(self)@.with_subscription(*customer, plan_id, now)),
            r matches Ok(id) ==> id == old(self)@.subscriptions.len() + 1,
    {
        self.assert_not_paused()?;
        if plan_id == 0 || plan_id > self.plans.len() as u64 {
            return Err(ContractError::PlanNotFound);
        }
        let k = (plan_id - 1) as usize;
        if !self.plans[k].active {
            return Err(ContractError::PlanNotActive);
        }
        let id = self.subscriptions.len() as u64 + 1;
        let merchant_id = self.plans[k].merchant_id;
        self.subscriptions.push(Subscription {
            id,
            plan_id,
            customer: *customer,
            merchant_id,
            status: SubscriptionStatus::Active,
            date_created: now,
            last_charge_date: 0,
        });
        self.events.push(Event::Subscribed { subscription_id: id, plan_id, customer: *customer, timestamp: now });
        Ok(id)
    }

    /// The subscription with id `id`.
    pub fn get_subscription(&self, id: u64) -> (r: Result<Subscription, ContractError>)
        ensures
            !self@.subscription_exists(id) ==> r == Err::<Subscription, ContractError>(ContractError::SubscriptionNotFound),
            self@.subscription_exists(id) ==> r == Ok::<Subscription, ContractError>(self@.subscription(id)),
    {
        if id == 0 || id > self.subscriptions.len() as u64 {
            return Err(ContractError::SubscriptionNotFound);
        }
        Ok(self.subscriptions[(id - 1) as usize])
    }

    /// Charges one billing period of subscription `id` and returns the
    /// protocol fee; the first charge is due at once, each later one
    /// `interval` seconds after the previous.
    pub fn charge_subscription(&mut self, id: u64, now: u64) -> (r: Result<i128, ContractError>)
        requires
            old(self)@.wf(),
        ensures
            final(self)@.wf(),
            old(self)@.evolves_to(final(self)@),
            step(r, old(self)@.charge_error(id, now), old(self)@, final(self)@, old(self)@.charged(id, now)),
            r matches Ok(fee) ==> fee == old(self)@.charge_fee(id),
    {
        self.assert_not_paused()?;
        if id == 0 || id > self.subscriptions.len() as u64 {
            return Err(ContractError::SubscriptionNotFound);
        }
        let k = (id - 1) as usize;
        let sub = self.subscriptions[k];
        if sub.status != SubscriptionStatus::Active {
            return Err(ContractError::SubscriptionNotActive);
        }
        assert(self@.plan_exists(sub.plan_id));
        assert(sub.plan_id <= self.plans.len());
        let pk = (sub.plan_id - 1) as usize;
        let interval = self.plans[pk].interval;
        let last = sub.last_charge_date;
        if last > 0 && (now < last || now - last < interval) {
            return Err(ContractError::ChargeTooEarly);
        }
        let account = match self.get_merchant_account(sub.merchant_id) {
            Ok(a) => a,
            Err(e) => return Err(e),
        };
        let token = self.plans[pk].token;
        let amount = self.plans[pk].amount;
        let plan_id = self.plans[pk].id;
        let merchant = self.plans[pk].merchant;
        let bps = self.fee_bps(&token);
        proof {
            crate::shade::lemma_fee_in_range(self@, token);
        }
        let fee = fee_for_amount(amount, bps);
        let contract = self.contract;
        let ghost before = self@;
        self.transfers.push(Transfer { kind: TransferKind::Allowance, token, from: sub.customer, to: account, amount: amount - fee });
        if fee > 0 {
            self.transfers.push(Transfer { kind: TransferKind::Allowance, token, from: sub.customer, to: contract, amount: fee });
        }
        assert(self.transfers@ =~= before.transfers + before.charge_transfers(id));
        self.subscriptions[k].last_charge_date = now;
        self.events.push(Event::SubscriptionCharged {
            subscription_id: id,
            plan_id,
            customer: sub.customer,
            merchant,
            amount,
            fee,
            token,
            timestamp: now,
        });
        proof {
            Self::lemma_subscription_replaced(old(self)@, self@, k as int, Subscription { last_charge_date: now, ..sub });
        }
        Ok(fee)
    }

    /// Cancels active subscription `id`; `caller` must be its customer or the
    /// plan's merchant.
    pub fn cancel_subscription(&mut self, caller: &Address, id: u64, now: u64) -> (r: Result<(), ContractError>)
        requires
            old(self)@.wf(),
        ensures
            final(self)@.wf(),
            old(self)@.evolves_to(final(self)@),
            step(r, old(self)@.cancel_error(*caller, id), old(self)@, final(self)@, old(self)@.cancelled(*caller, id, now)),
    {
        self.assert_not_paused()?;
        if id == 0 || id > self.subscriptions.len() as u64 {
            return Err(ContractError::SubscriptionNotFound);
        }
        let k = (id - 1) as usize;
        let sub = self.subscriptions[k];
        if sub.status != SubscriptionStatus::Active {
            return Err(ContractError::SubscriptionNotActive);
        }
        assert(self@.plan_exists(sub.plan_id));
        assert(sub.plan_id <= self.plans.len());
        let pk = (sub.plan_id - 1) as usize;
        if *caller != sub.customer && *caller != self.plans[pk].merchant {
            return Err(ContractError::NotAuthorized);
        }
        self.subscriptions[k].status = SubscriptionStatus::Cancelled;
        self.events.push(Event::SubscriptionCancelled { subscription_id: id, caller: *caller, timestamp: now });
        proof {
            Self::lemma_subscription_replaced(old(self)@, self@, k as int, Subscription { status: SubscriptionStatus::Cancelled, ..sub });
        }
        Ok(())
    }

    /// Replacing subscription `k` by one with the same id, plan and merchant
    /// keeps the invariant.
    proof fn lemma_subscription_replaced(before: ShadeView, after: ShadeView, k: int, sub: Subscription)
        requires
            before.wf(),
            0 <= k < before.subscriptions.len(),
            sub.id == before.subscriptions[k].id,
            sub.plan_id == before.subscriptions[k].plan_id,
            sub.merchant_id == before.subscriptions[k].merchant_id,
            after.subscriptions == before.subscriptions.update(k, sub),
            after.merchants == before.merchants,
            after.merchant_accounts == before.merchant_accounts,
            after.plans == before.plans,
            after.invoices == before.invoices,
            after.token_fees == before.token_fees,
        ensures
            after.wf(),
    {
        assert forall|i: int| 0 <= i < after.subscriptions.len() implies {
            &&& (#[trigger] after.subscriptions[i]).id == i + 1
            &&& after.plan_exists(after.subscriptions[i].plan_id)
            &&& after.subscriptions[i].merchant_id == after.plan(after.subscriptions[i].plan_id).merchant_id
        } by {
            if i != k {
                assert(after.subscriptions[i] == before.subscriptions[i]);
            }
        }
    }
}

} // verus!
