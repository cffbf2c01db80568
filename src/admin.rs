//! Initialisation, administrator transfer, roles, pause switch and the
//! token registry.
use vstd::prelude::*;
use crate::errors::ContractError;
use crate::shade::{step, with_item, without_item, Shade, ShadeView, FEE_DENOMINATOR};
use crate::types::{Address, ContractInfo, Event, Role};

verus! {

/// `s` with each of `items` added in turn, those already there left out.
pub open spec fn with_items(s: Seq<Address>, items: Seq<Address>) -> Seq<Address>
    decreases items.len(),
{
    if items.len() == 0 {
        s
    } else {
        with_item(with_items(s, items.drop_last()), items.last())
    }
}

impl ShadeView {
    /// Why `initialize` fails, if it does.
    pub open spec fn initialize_error(self) -> Option<ContractError> {
        if self.info is Some {
            Some(ContractError::AlreadyInitialized)
        } else {
            None
        }
    }

    /// The state after a successful `initialize`.
    pub open spec fn initialized(self, admin: Address, now: u64) -> ShadeView {
        ShadeView {
            info: Some(ContractInfo { admin, timestamp: now }),
            events: self.events.push(Event::Initialized { admin, timestamp: now }),
            ..self
        }
    }

    /// Why `accept_admin_transfer` fails, if it does.
    pub open spec fn accept_error(self, new_admin: Address) -> Option<ContractError> {
        if self.pending_admin != Some(new_admin) {
            Some(ContractError::NotAuthorized)
        } else if self.info is None {
            Some(ContractError::NotInitialized)
        } else {
            None
        }
    }

    /// The state after a successful `accept_admin_transfer`.
    pub open spec fn admin_accepted(self, new_admin: Address) -> ShadeView {
        ShadeView {
            info: Some(ContractInfo { admin: new_admin, timestamp: self.info->0.timestamp }),
            pending_admin: None,
            ..self
        }
    }

    /// The state after `role` is granted to `user`.
    pub open spec fn granted(self, user: Address, role: Role) -> ShadeView {
        ShadeView { roles: with_item(self.roles, (user, role)), ..self }
    }

    /// The state after `role` is revoked from `user`.
    pub open spec fn revoked(self, user: Address, role: Role) -> ShadeView {
        ShadeView { roles: without_item(self.roles, (user, role)), ..self }
    }

    /// Why `pause` fails, if it does.
    pub open spec fn pause_call_error(self, admin: Address) -> Option<ContractError> {
        if self.admin_error(admin) is Some {
            self.admin_error(admin)
        } else if self.paused {
            Some(ContractError::ContractPaused)
        } else {
            None
        }
    }

    /// Why `unpause` fails, if it does.
    pub open spec fn unpause_call_error(self, admin: Address) -> Option<ContractError> {
        if self.admin_error(admin) is Some {
            self.admin_error(admin)
        } else if !self.paused {
            Some(ContractError::ContractNotPaused)
        } else {
            None
        }
    }

    /// Why `set_fee` fails, if it does.
    pub open spec fn set_fee_error(self, admin: Address, fee: i128) -> Option<ContractError> {
        if self.gated_admin_error(admin) is Some {
            self.gated_admin_error(admin)
        } else if fee < 0 || fee > FEE_DENOMINATOR {
            Some(ContractError::InvalidAmount)
        } else {
            None
        }
    }
}

impl Shade {
    /// Stores `admin` as administrator; fails if already initialised.
    pub fn initialize(&mut self, admin: &Address, now: u64) -> (r: Result<(), ContractError>)
        requires
            old(self)@.wf(),
        ensures
            final(self)@.wf(),
            old(self)@.evolves_to(final(self)@),
            step(r, old(self)@.initialize_error(), old(self)@, final(self)@, old(self)@.initialized(*admin, now)),
    {
        if self.info.is_some() {
            return Err(ContractError::AlreadyInitialized);
        }
        self.info = Some(ContractInfo { admin: *admin, timestamp: now });
        self.events.push(Event::Initialized { admin: *admin, timestamp: now });
        Ok(())
    }

    /// The administrator.
    pub fn get_admin(&self) -> (r: Result<Address, ContractError>)
        ensures
            self@.info is None ==> r == Err::<Address, ContractError>(ContractError::NotInitialized),
            self@.info matches Some(i) ==> r == Ok::<Address, ContractError>(i.admin),
    {
        match &self.info {
            Some(info) => Ok(info.admin),
            None => Err(ContractError::NotInitialized),
        }
    }

    /// The administrator and the time of initialisation.
    pub fn get_contract_info(&self) -> (r: Result<ContractInfo, ContractError>)
        ensures
            self@.info is None ==> r == Err::<ContractInfo, ContractError>(ContractError::NotInitialized),
            self@.info matches Some(i) ==> r == Ok::<ContractInfo, ContractError>(i),
    {
        match &self.info {
            Some(info) => Ok(*info),
            None => Err(ContractError::NotInitialized),
        }
    }

    /// Proposes `new_admin` as the next administrator, replacing any earlier
    /// proposal; administrator only.
    pub fn propose_admin_transfer(&mut self, admin: &Address, new_admin: &Address) -> (r: Result<(), ContractError>)
        requires
            old(self)@.wf(),
        ensures
            final(self)@.wf(),
            old(self)@.evolves_to(final(self)@),
            step(r, old(self)@.admin_error(*admin), old(self)@, final(self)@, ShadeView { pending_admin: Some(*new_admin), ..old(self)@ }),
    {
        self.check_admin(admin)?;
        self.pending_admin = Some(*new_admin);
        Ok(())
    }

    /// Completes a transfer: `new_admin` must be the proposed administrator;
    /// it becomes the administrator and the proposal is cleared.
    pub fn accept_admin_transfer(&mut self, new_admin: &Address) -> (r: Result<(), ContractError>)
        requires
            old(self)@.wf(),
        ensures
            final(self)@.wf(),
            old(self)@.evolves_to(final(self)@),
            step(r, old(self)@.accept_error(*new_admin), old(self)@, final(self)@, old(self)@.admin_accepted(*new_admin)),
    {
        let proposed = match &self.pending_admin {
            Some(p) => *p == *new_admin,
            None => false,
        };
        if !proposed {
            return Err(ContractError::NotAuthorized);
        }
        match &self.info {
            None => Err(ContractError::NotInitialized),
            Some(info) => {
                let timestamp = info.timestamp;
                self.info = Some(ContractInfo { admin: *new_admin, timestamp });
                self.pending_admin = None;
                Ok(())
            },
        }
    }

    /// Grants `role` to `user`; administrator only.
    pub fn grant_role(&mut self, admin: &Address, user: &Address, role: Role) -> (r: Result<(), ContractError>)
        requires
            old(self)@.wf(),
        ensures
            final(self)@.wf(),
            old(self)@.evolves_to(final(self)@),
            step(r, old(self)@.admin_error(*admin), old(self)@, final(self)@, old(self)@.granted(*user, role)),
    {
        self.check_admin(admin)?;
        let mut i: usize = 0;
        while i < self.roles.len()
            invariant
                0 <= i <= self.roles@.len(),
                self@ == old(self)@,
                self@.wf(),
                old(self)@.admin_error(*admin) is None,
                forall|j: int| 0 <= j < i ==> self.roles@[j] != (*user, role),
            decreases self.roles@.len() - i,
        {
            if self.roles[i].0 == *user && self.roles[i].1 == role {
                assert(self.roles@[i as int] == (*user, role));
                return Ok(());
            }
            i = i + 1;
        }
        self.roles.push((*user, role));
        Ok(())
    }

    /// Revokes `role` from `user`; administrator only.
    pub fn revoke_role(&mut self, admin: &Address, user: &Address, role: Role) -> (r: Result<(), ContractError>)
        requires
            old(self)@.wf(),
        ensures
            final(self)@.wf(),
            old(self)@.evolves_to(final(self)@),
            step(r, old(self)@.admin_error(*admin), old(self)@, final(self)@, old(self)@.revoked(*user, role)),
    {
        self.check_admin(admin)?;
        let mut kept: Vec<(Address, Role)> = Vec::new();
        let mut i: usize = 0;
        while i < self.roles.len()
            invariant
                0 <= i <= self.roles@.len(),
                self@ == old(self)@,
                kept@ == without_item(self.roles@.take(i as int), (*user, role)),
            decreases self.roles@.len() - i,
        {
            let entry = self.roles[i];
            proof {
                reveal(Seq::filter);
                assert(self.roles@.take(i + 1).drop_last() =~= self.roles@.take(i as int));
                assert(self.roles@.take(i + 1).last() == entry);
            }
            if !(entry.0 == *user && entry.1 == role) {
                kept.push(entry);
            }
            i = i + 1;
        }
        assert(self.roles@.take(i as int) =~= self.roles@);
        self.roles = kept;
        Ok(())
    }

    /// Switches the pause on; administrator only.
    pub fn pause(&mut self, admin: &Address) -> (r: Result<(), ContractError>)
        requires
            old(self)@.wf(),
        ensures
            final(self)@.wf(),
            old(self)@.evolves_to(final(self)@),
            step(r, old(self)@.pause_call_error(*admin), old(self)@, final(self)@, ShadeView { paused: true, ..old(self)@ }),
    {
        self.check_admin(admin)?;
        if self.paused {
            return Err(ContractError::ContractPaused);
        }
        self.paused = true;
        Ok(())
    }

    /// Switches the pause off; administrator only.
    pub fn unpause(&mut self, admin: &Address) -> (r: Result<(), ContractError>)
        requires
            old(self)@.wf(),
        ensures
            final(self)@.wf(),
            old(self)@.evolves_to(final(self)@),
            step(r, old(self)@.unpause_call_error(*admin), old(self)@, final(self)@, ShadeView { paused: false, ..old(self)@ }),
    {
        self.check_admin(admin)?;
        if !self.paused {
            return Err(ContractError::ContractNotPaused);
        }
        self.paused = false;
        Ok(())
    }

    /// Whether the contract is paused.
    pub fn is_paused(&self) -> (r: bool)
        ensures
            r == self@.paused,
    {
        self.paused
    }

    /// Fails with `ContractPaused` while the contract is paused.
    pub fn assert_not_paused(&self) -> (r: Result<(), ContractError>)
        ensures
            self@.paused ==> r == Err::<(), ContractError>(ContractError::ContractPaused),
            !self@.paused ==> r == Ok::<(), ContractError>(()),
    {
        if self.paused {
            Err(ContractError::ContractPaused)
        } else {
            Ok(())
        }
    }

    /// Adds `token` to the accepted tokens, unless already there.
    fn insert_token(&mut self, token: &Address)
        ensures
            final(self)@ == (ShadeView { accepted_tokens: with_item(old(self)@.accepted_tokens, *token), ..old(self)@ }),
    {
        if self.token_accepted(token) {
            return;
        }
        self.accepted_tokens.push(*token);
    }

    /// Accepts `token` for payment; administrator only.
    pub fn add_accepted_token(&mut self, admin: &Address, token: &Address) -> (r: Result<(), ContractError>)
        requires
            old(self)@.wf(),
        ensures
            final(self)@.wf(),
            old(self)@.evolves_to(final(self)@),
            step(r, old(self)@.gated_admin_error(*admin), old(self)@, final(self)@, ShadeView { accepted_tokens: with_item(old(self)@.accepted_tokens, *token), ..old(self)@ }),
    {
        self.assert_not_paused()?;
        self.check_admin(admin)?;
        self.insert_token(token);
        Ok(())
    }

    /// Accepts each of `tokens` for payment; administrator only.
    pub fn add_accepted_tokens(&mut self, admin: &Address, tokens: &Vec<Address>) -> (r: Result<(), ContractError>)
        requires
            old(self)@.wf(),
        ensures
            final(self)@.wf(),
            old(self)@.evolves_to(final(self)@),
            step(r, old(self)@.gated_admin_error(*admin), old(self)@, final(self)@, ShadeView { accepted_tokens: with_items(old(self)@.accepted_tokens, tokens@), ..old(self)@ }),
    {
        self.assert_not_paused()?;
        self.check_admin(admin)?;
        let ghost start = self@;
        let mut i: usize = 0;
        while i < tokens.len()
            invariant
                0 <= i <= tokens@.len(),
                self@ == (ShadeView { accepted_tokens: with_items(start.accepted_tokens, tokens@.take(i as int)), ..start }),
            decreases tokens@.len() - i,
        {
            assert(tokens@.take(i + 1).drop_last() =~= tokens@.take(i as int));
            self.insert_token(&tokens[i]);
            i = i + 1;
        }
        assert(tokens@.take(i as int) =~= tokens@);
        Ok(())
    }

    /// Stops accepting `token` for payment; administrator only.
    pub fn remove_accepted_token(&mut self, admin: &Address, token: &Address) -> (r: Result<(), ContractError>)
        requires
            old(self)@.wf(),
        ensures
            final(self)@.wf(),
            old(self)@.evolves_to(final(self)@),
            step(r, old(self)@.gated_admin_error(*admin), old(self)@, final(self)@, ShadeView { accepted_tokens: without_item(old(self)@.accepted_tokens, *token), ..old(self)@ }),
    {
        self.assert_not_paused()?;
        self.check_admin(admin)?;
        let mut kept: Vec<Address> = Vec::new();
        let mut i: usize = 0;
        while i < self.accepted_tokens.len()
            invariant
                0 <= i <= self.accepted_tokens@.len(),
                self@ == old(self)@,
                kept@ == without_item(self.accepted_tokens@.take(i as int), *token),
            decreases self.accepted_tokens@.len() - i,
        {
            let entry = self.accepted_tokens[i];
            proof {
                reveal(Seq::filter);
                assert(self.accepted_tokens@.take(i + 1).drop_last() =~= self.accepted_tokens@.take(i as int));
                assert(self.accepted_tokens@.take(i + 1).last() == entry);
            }
            if !(entry == *token) {
                kept.push(entry);
            }
            i = i + 1;
        }
        assert(self.accepted_tokens@.take(i as int) =~= self.accepted_tokens@);
        self.accepted_tokens = kept;
        Ok(())
    }

    /// Whether `token` is accepted for payment.
    pub fn is_accepted_token(&self, token: &Address) -> (r: bool)
        ensures
            r == self@.accepted_tokens.contains(*token),
    {
        self.token_accepted(token)
    }

    /// Sets the fee for `token`, in basis points within `[0, 10_000]`;
    /// administrator only.
    pub fn set_fee(&mut self, admin: &Address, token: &Address, fee: i128) -> (r: Result<(), ContractError>)
        requires
            old(self)@.wf(),
        ensures
            final(self)@.wf(),
            old(self)@.evolves_to(final(self)@),
            step(r, old(self)@.set_fee_error(*admin, fee), old(self)@, final(self)@, ShadeView { token_fees: old(self)@.token_fees.push((*token, fee)), ..old(self)@ }),
    {
        self.assert_not_paused()?;
        self.check_admin(admin)?;
        if fee < 0 || fee > FEE_DENOMINATOR {
            return Err(ContractError::InvalidAmount);
        }
        self.token_fees.push((*token, fee));
        Ok(())
    }

    /// The fee for `token` in basis points; 0 when unset.
    pub fn get_fee(&self, token: &Address) -> (r: i128)
        ensures
            r == self@.fee_of(*token),
    {
        self.fee_bps(token)
    }

    /// Stores the code hash used to deploy merchant accounts; administrator
    /// only.
    pub fn set_account_wasm_hash(&mut self, admin: &Address, hash: [u8; 32]) -> (r: Result<(), ContractError>)
        requires
            old(self)@.wf(),
        ensures
            final(self)@.wf(),
            old(self)@.evolves_to(final(self)@),
            step(r, old(self)@.gated_admin_error(*admin), old(self)@, final(self)@, ShadeView { account_wasm_hash: Some(hash), ..old(self)@ }),
    {
        self.assert_not_paused()?;
        self.check_admin(admin)?;
        self.account_wasm_hash = Some(hash);
        Ok(())
    }

    /// The code hash used to deploy merchant accounts.
    pub fn get_account_wasm_hash(&self) -> (r: Result<[u8; 32], ContractError>)
        ensures
            self@.account_wasm_hash is None ==> r == Err::<[u8; 32], ContractError>(ContractError::WasmHashNotSet),
            self@.account_wasm_hash matches Some(h) ==> r == Ok::<[u8; 32], ContractError>(h),
    {
        match self.account_wasm_hash {
            Some(h) => Ok(h),
            None => Err(ContractError::WasmHashNotSet),
        }
    }
}

} // verus!
