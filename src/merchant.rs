//! The merchant registry: registration, flags, signing keys and the binding
//! of merchant accounts.
use vstd::prelude::*;
use crate::errors::ContractError;
use crate::shade::{step, Shade, ShadeView};
use crate::types::{Address, Event, Merchant, MerchantFilter};

verus! {

/// Whether `m` passes `f`.
pub open spec fn merchant_matches(f: MerchantFilter, m: Merchant) -> bool {
    &&& (f.is_active matches Some(a) ==> m.active == a)
    &&& (f.is_verified matches Some(v) ==> m.verified == v)
}

/// The merchants of `ms` that pass `f`, in order.
pub open spec fn merchants_matching(ms: Seq<Merchant>, f: MerchantFilter) -> Seq<Merchant> {
    ms.filter(|m: Merchant| merchant_matches(f, m))
}

impl ShadeView {
    /// Why `register_merchant` fails, if it does.
    pub open spec fn register_error(self, merchant: Address) -> Option<ContractError> {
        if self.paused {
            Some(ContractError::ContractPaused)
        } else if self.is_merchant(merchant) {
            Some(ContractError::MerchantAlreadyRegistered)
        } else {
            None
        }
    }

    /// The state after a successful `register_merchant`.
    pub open spec fn registered(self, merchant: Address, now: u64) -> ShadeView {
        let id = (self.merchants.len() + 1) as u64;
        ShadeView {
            merchants: self.merchants.push(
                Merchant { id, address: merchant, active: true, verified: false, date_registered: now },
            ),
            merchant_accounts: self.merchant_accounts.push(None),
            events: self.events.push(
                Event::MerchantRegistered { merchant, merchant_id: id, timestamp: now },
            ),
            ..self
        }
    }

    /// Why an administrator's update of merchant `id` fails, if it does.
    pub open spec fn merchant_update_error(self, admin: Address, id: u64) -> Option<ContractError> {
        if self.gated_admin_error(admin) is Some {
            self.gated_admin_error(admin)
        } else if !self.merchant_exists(id) {
            Some(ContractError::MerchantNotFound)
        } else {
            None
        }
    }

    /// The state with merchant `id` replaced by `m`.
    pub open spec fn with_merchant(self, id: u64, m: Merchant) -> ShadeView {
        ShadeView { merchants: self.merchants.update(id - 1, m), ..self }
    }

    /// Why `set_merchant_account` fails, if it does.
    pub open spec fn bind_account_error(self, merchant: Address) -> Option<ContractError> {
        if self.paused {
            Some(ContractError::ContractPaused)
        } else if !self.is_merchant(merchant) {
            Some(ContractError::MerchantNotFound)
        } else {
            None
        }
    }

    /// The state with `account` bound to the merchant registered under
    /// `merchant`.
    pub open spec fn with_account(self, merchant: Address, account: Address) -> ShadeView {
        let id = self.merchant_id(merchant)->0;
        ShadeView { merchant_accounts: self.merchant_accounts.update(id - 1, Some(account)), ..self }
    }

    /// Why `restrict_merchant_account` fails, if it does.
    pub open spec fn restrict_error(self, caller: Address, merchant: Address) -> Option<ContractError> {
        if self.admin_error(caller) is Some {
            self.admin_error(caller)
        } else if !self.is_merchant(merchant) {
            Some(ContractError::MerchantNotFound)
        } else if self.merchant_account(self.merchant_id(merchant)->0) is None {
            Some(ContractError::MerchantAccountNotSet)
        } else {
            None
        }
    }
}

impl Shade {
    /// Registers `merchant` under the next id, active and unverified, and
    /// returns the id.
    pub fn register_merchant(&mut self, merchant: &Address, now: u64) -> (r: Result<u64, ContractError>)
        requires
            old(self)@.wf(),
            old(self)@.merchants.len() < u64::MAX,
        ensures
            final(self)@.wf(),
            old(self)@.evolves_to(final(self)@),
            step(r, old(self)@.register_error(*merchant), old(self)@, final(self)@, old(self)@.registered(*merchant, now)),
            r matches Ok(id) ==> id == old(self)@.merchants.len() + 1,
    {
        self.assert_not_paused()?;
        if self.find_merchant(merchant).is_some() {
            return Err(ContractError::MerchantAlreadyRegistered);
        }
        let id = self.merchants.len() as u64 + 1;
        let ghost before = self@;
        self.merchants.push(Merchant {
            id,
            address: *merchant,
            active: true,
            verified: false,
            date_registered: now,
        });
        self.merchant_accounts.push(None);
        self.events.push(Event::MerchantRegistered { merchant: *merchant, merchant_id: id, timestamp: now });
        proof {
            assert forall|i: int, j: int|
                0 <= i < self@.merchants.len() && 0 <= j < self@.merchants.len() && i != j
                    implies #[trigger] self@.merchants[i].address != #[trigger] self@.merchants[j].address by {
                if i < before.merchants.len() && j < before.merchants.len() {
                    assert(before.merchants[i].address != before.merchants[j].address);
                } else if i < before.merchants.len() {
                    assert(before.merchants[i].address == self@.merchants[i].address);
                } else {
                    assert(before.merchants[j].address == self@.merchants[j].address);
                }
            }
            assert forall|i: int| 0 <= i < before.plans.len() implies self@.merchant((#[trigger] before.plans[i]).merchant_id) == before.merchant(before.plans[i].merchant_id) by {
                assert(before.merchant_exists(before.plans[i].merchant_id));
            }
        }
        Ok(id)
    }

    /// The merchant with id `id`.
    pub fn get_merchant(&self, id: u64) -> (r: Result<Merchant, ContractError>)
        requires
            self@.wf(),
        ensures
            !self@.merchant_exists(id) ==> r == Err::<Merchant, ContractError>(ContractError::MerchantNotFound),
            self@.merchant_exists(id) ==> r == Ok::<Merchant, ContractError>(self@.merchant(id)),
    {
        if id == 0 || id > self.merchants.len() as u64 {
            return Err(ContractError::MerchantNotFound);
        }
        Ok(self.merchants[(id - 1) as usize])
    }

    /// The registered merchants that pass `filter`, by increasing id.
    pub fn get_merchants(&self, filter: MerchantFilter) -> (r: Vec<Merchant>)
        ensures
            r@ == merchants_matching(self@.merchants, filter),
    {
        let mut out: Vec<Merchant> = Vec::new();
        let mut i: usize = 0;
        while i < self.merchants.len()
            invariant
                0 <= i <= self.merchants@.len(),
                out@ == merchants_matching(self.merchants@.take(i as int), filter),
            decreases self.merchants@.len() - i,
        {
            let m = self.merchants[i];
            proof {
                reveal(Seq::filter);
                assert(self.merchants@.take(i + 1).drop_last() =~= self.merchants@.take(i as int));
                assert(self.merchants@.take(i + 1).last() == m);
            }
            let keep = match filter.is_active {
                Some(a) => m.active == a,
                None => true,
            } && match filter.is_verified {
                Some(v) => m.verified == v,
                None => true,
            };
            if keep {
                out.push(m);
            }
            i = i + 1;
        }
        assert(self.merchants@.take(i as int) =~= self.merchants@);
        out
    }

    /// Whether `merchant` is registered.
    pub fn is_merchant(&self, merchant: &Address) -> (r: bool)
        requires
            self@.wf(),
        ensures
            r == self@.is_merchant(*merchant),
    {
        self.find_merchant(merchant).is_some()
    }

    /// Sets whether merchant `id` is active; administrator only.
    pub fn set_merchant_status(&mut self, admin: &Address, id: u64, active: bool) -> (r: Result<(), ContractError>)
        requires
            old(self)@.wf(),
        ensures
            final(self)@.wf(),
            old(self)@.evolves_to(final(self)@),
            step(r, old(self)@.merchant_update_error(*admin, id), old(self)@, final(self)@, old(self)@.with_merchant(id, Merchant { active, ..old(self)@.merchant(id) })),
    {
        self.assert_not_paused()?;
        self.check_admin(admin)?;
        if id == 0 || id > self.merchants.len() as u64 {
            return Err(ContractError::MerchantNotFound);
        }
        let k = (id - 1) as usize;
        let ghost before = self@;
        self.merchants[k].active = active;
        proof { self.lemma_merchant_flags_kept(before); }
        Ok(())
    }

    /// Whether merchant `id` is active.
    pub fn is_merchant_active(&self, id: u64) -> (r: Result<bool, ContractError>)
        ensures
            !self@.merchant_exists(id) ==> r == Err::<bool, ContractError>(ContractError::MerchantNotFound),
            self@.merchant_exists(id) ==> r == Ok::<bool, ContractError>(self@.merchant(id).active),
    {
        if id == 0 || id > self.merchants.len() as u64 {
            return Err(ContractError::MerchantNotFound);
        }
        Ok(self.merchants[(id - 1) as usize].active)
    }

    /// Sets whether merchant `id` is verified; administrator only.
    pub fn verify_merchant(&mut self, admin: &Address, id: u64, verified: bool) -> (r: Result<(), ContractError>)
        requires
            old(self)@.wf(),
        ensures
            final(self)@.wf(),
            old(self)@.evolves_to(final(self)@),
            step(r, old(self)@.merchant_update_error(*admin, id), old(self)@, final(self)@, old(self)@.with_merchant(id, Merchant { verified, ..old(self)@.merchant(id) })),
    {
        self.assert_not_paused()?;
        self.check_admin(admin)?;
        if id == 0 || id > self.merchants.len() as u64 {
            return Err(ContractError::MerchantNotFound);
        }
        let k = (id - 1) as usize;
        let ghost before = self@;
        self.merchants[k].verified = verified;
        proof { self.lemma_merchant_flags_kept(before); }
        Ok(())
    }

    /// Whether merchant `id` is verified.
    pub fn is_merchant_verified(&self, id: u64) -> (r: Result<bool, ContractError>)
        ensures
            !self@.merchant_exists(id) ==> r == Err::<bool, ContractError>(ContractError::MerchantNotFound),
            self@.merchant_exists(id) ==> r == Ok::<bool, ContractError>(self@.merchant(id).verified),
    {
        if id == 0 || id > self.merchants.len() as u64 {
            return Err(ContractError::MerchantNotFound);
        }
        Ok(self.merchants[(id - 1) as usize].verified)
    }

    /// Changing a merchant's flags keeps the invariant.
    proof fn lemma_merchant_flags_kept(&self, before: ShadeView)
        requires
            before.wf(),
            self@ == (ShadeView { merchants: self@.merchants, ..before }),
            self@.merchants.len() == before.merchants.len(),
            forall|i: int| 0 <= i < before.merchants.len() ==> (#[trigger] self@.merchants[i]).id == before.merchants[i].id
                && self@.merchants[i].address == before.merchants[i].address,
        ensures
            self@.wf(),
    {
        assert forall|i: int| 0 <= i < before.plans.len() implies self@.merchant((#[trigger] before.plans[i]).merchant_id).address == before.merchant(before.plans[i].merchant_id).address by {
            let k = before.plans[i].merchant_id - 1;
            assert(self@.merchants[k].address == before.merchants[k].address);
        }
        assert forall|i: int, j: int|
            0 <= i < self@.merchants.len() && 0 <= j < self@.merchants.len() && i != j
                implies #[trigger] self@.merchants[i].address != #[trigger] self@.merchants[j].address by {
            assert(self@.merchants[i].address == before.merchants[i].address);
            assert(self@.merchants[j].address == before.merchants[j].address);
            assert(before.merchants[i].address != before.merchants[j].address);
        }
    }

    /// Registers `key` as the Ed25519 public key of `merchant`, replacing any
    /// earlier key.
    pub fn set_merchant_key(&mut self, merchant: &Address, key: [u8; 32]) -> (r: Result<(), ContractError>)
        requires
            old(self)@.wf(),
        ensures
            final(self)@.wf(),
            old(self)@.evolves_to(final(self)@),
            step(r, old(self)@.pause_error(), old(self)@, final(self)@, ShadeView { merchant_keys: old(self)@.merchant_keys.push((*merchant, key)), ..old(self)@ }),
            r is Ok ==> final(self)@.merchant_key(*merchant) == Some(key),
    {
        self.assert_not_paused()?;
        self.merchant_keys.push((*merchant, key));
        Ok(())
    }

    /// The Ed25519 public key of `merchant`.
    pub fn get_merchant_key(&self, merchant: &Address) -> (r: Result<[u8; 32], ContractError>)
        ensures
            self@.merchant_key(*merchant) is None ==> r == Err::<[u8; 32], ContractError>(ContractError::MerchantKeyNotFound),
            self@.merchant_key(*merchant) matches Some(k) ==> r == Ok::<[u8; 32], ContractError>(k),
    {
        match self.find_key(merchant) {
            Some(k) => Ok(k),
            None => Err(ContractError::MerchantKeyNotFound),
        }
    }

    /// Binds the merchant account contract `account` to `merchant`.
    pub fn set_merchant_account(&mut self, merchant: &Address, account: &Address) -> (r: Result<(), ContractError>)
        requires
            old(self)@.wf(),
        ensures
            final(self)@.wf(),
            old(self)@.evolves_to(final(self)@),
            step(r, old(self)@.bind_account_error(*merchant), old(self)@, final(self)@, old(self)@.with_account(*merchant, *account)),
    {
        self.assert_not_paused()?;
        match self.find_merchant(merchant) {
            None => Err(ContractError::MerchantNotFound),
            Some(id) => {
                assert(id <= self.merchants.len());
                let k = (id - 1) as usize;
                assert(self.merchant_accounts@.len() == self.merchants@.len());
                self.merchant_accounts[k] = Some(*account);
                Ok(())
            },
        }
    }

    /// The merchant account bound to merchant `id`.
    pub fn get_merchant_account(&self, id: u64) -> (r: Result<Address, ContractError>)
        requires
            self@.wf(),
        ensures
            self@.merchant_account(id) is None ==> r == Err::<Address, ContractError>(ContractError::MerchantAccountNotSet),
            self@.merchant_account(id) matches Some(a) ==> r == Ok::<Address, ContractError>(a),
    {
        if id == 0 || id > self.merchant_accounts.len() as u64 {
            return Err(ContractError::MerchantAccountNotSet);
        }
        match self.merchant_accounts[(id - 1) as usize] {
            Some(a) => Ok(a),
            None => Err(ContractError::MerchantAccountNotSet),
        }
    }

    /// Checks that `caller` may set the restriction flag of `merchant`'s
    /// account and returns that account, on which the flag is to be set.
    pub fn restrict_merchant_account(&self, caller: &Address, merchant: &Address) -> (r: Result<Address, ContractError>)
        requires
            self@.wf(),
        ensures
            self@.restrict_error(*caller, *merchant) matches Some(e) ==> r == Err::<Address, ContractError>(e),
            self@.restrict_error(*caller, *merchant) is None ==> r == Ok::<Address, ContractError>(self@.merchant_account(self@.merchant_id(*merchant)->0)->0),
    {
        self.check_admin(caller)?;
        match self.find_merchant(merchant) {
            None => Err(ContractError::MerchantNotFound),
            Some(id) => self.get_merchant_account(id),
        }
    }
}

} // verus!
