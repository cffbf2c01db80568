//! The invoice engine: creation (plain and merchant-signed), full and
//! partial payment with the protocol fee split off, full and partial
//! refunds within the refund window, voiding and amendment.
use vstd::prelude::*;
use vstd::utf8::encode_utf8;
use crate::errors::ContractError;
use crate::shade::{invoice_consistent, step, Shade, ShadeView, FEE_DENOMINATOR, MAX_REFUND_DURATION};
use crate::signature::{ed25519_accepts, invoice_message, verify_invoice_signature};
use crate::types::{Address, Event, Invoice, InvoiceFilter, InvoiceStatus, Role, Transfer, TransferKind};

verus! {

/// The protocol fee on `amount` at `bps` basis points, rounded down.
pub open spec fn fee_amount(amount: i128, bps: i128) -> int {
    amount * bps / FEE_DENOMINATOR as int
}

/// The protocol fee on `amount` at `bps` basis points, rounded down; it
/// never exceeds `amount`, and no intermediate value overflows.
pub fn fee_for_amount(amount: i128, bps: i128) -> (r: i128)
    requires
        amount >= 0,
        0 <= bps <= FEE_DENOMINATOR,
    ensures
        r == fee_amount(amount, bps),
        0 <= r <= amount,
{
    let q = amount / FEE_DENOMINATOR;
    let rem = amount % FEE_DENOMINATOR;
    proof {
        vstd::arithmetic::div_mod::lemma_fundamental_div_mod(amount as int, 10000);
        assert(0 <= q * bps <= q * 10000) by (nonlinear_arith)
            requires q >= 0, 0 <= bps <= 10000;
        assert(0 <= rem * bps <= rem * 10000) by (nonlinear_arith)
            requires 0 <= rem < 10000, 0 <= bps <= 10000;
        assert(amount * bps == rem * bps + (q * bps) * 10000) by (nonlinear_arith)
            requires amount == 10000 * q + rem;
        vstd::arithmetic::div_mod::lemma_hoist_over_denominator(rem * bps, q * bps, 10000);
        vstd::arithmetic::div_mod::lemma_div_is_ordered(rem * bps, rem * 10000, 10000);
        vstd::arithmetic::div_mod::lemma_div_multiples_vanish(rem as int, 10000);
    }
    q * bps + rem * bps / FEE_DENOMINATOR
}

/// Whether `inv` passes `f`; `merchant_id` is the id registered for the
/// filter's merchant address.
pub open spec fn invoice_matches(f: InvoiceFilter, merchant_id: Option<u64>, inv: Invoice) -> bool {
    &&& (f.status matches Some(s) ==> inv.status.spec_code() == s)
    &&& (f.merchant is Some ==> merchant_id == Some(inv.merchant_id))
    &&& (f.min_amount matches Some(m) ==> inv.amount >= m)
    &&& (f.max_amount matches Some(m) ==> inv.amount <= m)
    &&& (f.start_date matches Some(d) ==> inv.date_created >= d)
    &&& (f.end_date matches Some(d) ==> inv.date_created <= d)
}

/// The invoices of `invs` that pass `f`, in order.
pub open spec fn invoices_matching(invs: Seq<Invoice>, f: InvoiceFilter, merchant_id: Option<u64>) -> Seq<Invoice> {
    invs.filter(|inv: Invoice| invoice_matches(f, merchant_id, inv))
}

/// `inv` after `payer` pays `amount` towards it at time `now`, of which
/// `fee` goes to the protocol.
pub open spec fn paid_invoice(inv: Invoice, payer: Address, amount: i128, fee: i128, now: u64) -> Invoice {
    let paid = (inv.amount_paid + amount) as i128;
    let fees = (inv.fees_paid + fee) as i128;
    if paid == inv.amount {
        Invoice { amount_paid: paid, fees_paid: fees, payer: Some(payer), status: InvoiceStatus::Paid, date_paid: Some(now), ..inv }
    } else {
        Invoice { amount_paid: paid, fees_paid: fees, payer: Some(payer), status: InvoiceStatus::PartiallyPaid, ..inv }
    }
}

/// What the merchant account still holds of the payments towards `inv`:
/// what was paid, less the protocol fees, less what was refunded.
pub open spec fn escrow_held(inv: Invoice) -> int {
    inv.amount_paid - inv.fees_paid - inv.amount_refunded
}

/// What a full refund of `inv` returns to the payer: all that the merchant
/// account still holds of its payments, and nothing when that is none.
pub open spec fn full_refund_amount(inv: Invoice) -> i128 {
    if escrow_held(inv) > 0 {
        escrow_held(inv) as i128
    } else {
        0
    }
}

/// `inv` after `amount` of it is refunded.
pub open spec fn refunded_invoice(inv: Invoice, amount: i128) -> Invoice {
    let refunded = (inv.amount_refunded + amount) as i128;
    if refunded == inv.amount {
        Invoice { amount_refunded: refunded, status: InvoiceStatus::Refunded, ..inv }
    } else {
        Invoice { amount_refunded: refunded, status: InvoiceStatus::PartiallyRefunded, ..inv }
    }
}

/// Whether the refund window of a payment made at `paid` has closed at `now`.
pub open spec fn refund_window_closed(paid: Option<u64>, now: u64) -> bool {
    paid matches Some(p) && now - p > MAX_REFUND_DURATION
}

impl ShadeView {
    /// The invoice a merchant creates.
    pub open spec fn new_invoice(
        self,
        merchant: Address,
        description: String,
        amount: i128,
        token: Address,
        expires_at: Option<u64>,
        now: u64,
    ) -> Invoice {
        Invoice {
            id: (self.invoices.len() + 1) as u64,
            description,
            amount,
            token,
            status: InvoiceStatus::Pending,
            merchant_id: self.merchant_id(merchant)->0,
            payer: None,
            date_created: now,
            date_paid: None,
            amount_paid: 0,
            amount_refunded: 0,
            fees_paid: 0,
            expires_at,
        }
    }

    /// The state with `inv` stored as a new invoice of `merchant`.
    pub open spec fn with_new_invoice(self, merchant: Address, inv: Invoice) -> ShadeView {
        ShadeView {
            invoices: self.invoices.push(inv),
            events: self.events.push(
                Event::InvoiceCreated { invoice_id: inv.id, merchant, amount: inv.amount, token: inv.token },
            ),
            ..self
        }
    }

    /// Why `create_invoice` fails, if it does.
    pub open spec fn create_error(self, merchant: Address, amount: i128) -> Option<ContractError> {
        if self.paused {
            Some(ContractError::ContractPaused)
        } else if amount <= 0 {
            Some(ContractError::InvalidAmount)
        } else if !self.is_merchant(merchant) {
            Some(ContractError::NotAuthorized)
        } else {
            None
        }
    }

    /// Why a signed invoice creation fails, if it does, when the check of
    /// the merchant's signature came out as `signature_valid`.
    pub open spec fn create_checked_error(
        self,
        caller: Address,
        merchant: Address,
        amount: i128,
        nonce: [u8; 32],
        signature_valid: bool,
    ) -> Option<ContractError> {
        if self.paused {
            Some(ContractError::ContractPaused)
        } else if !self.has_role(caller, Role::Manager) && !self.has_role(caller, Role::Admin) {
            Some(ContractError::NotAuthorized)
        } else if amount <= 0 {
            Some(ContractError::InvalidAmount)
        } else if !self.is_merchant(merchant) {
            Some(ContractError::MerchantNotFound)
        } else if self.merchant_key(merchant) is None {
            Some(ContractError::MerchantKeyNotFound)
        } else if !signature_valid {
            Some(ContractError::InvalidSignature)
        } else if self.nonce_used(merchant, nonce) {
            Some(ContractError::NonceAlreadyUsed)
        } else {
            None
        }
    }

    /// Why `invalidate_nonce` fails, if it does.
    pub open spec fn nonce_error(self, merchant: Address, nonce: [u8; 32]) -> Option<ContractError> {
        if self.nonce_used(merchant, nonce) {
            Some(ContractError::NonceAlreadyUsed)
        } else {
            None
        }
    }

    /// The state after `nonce` is consumed for `merchant` at `now`.
    pub open spec fn nonce_consumed(self, merchant: Address, nonce: [u8; 32], now: u64) -> ShadeView {
        ShadeView {
            used_nonces: self.used_nonces.push((merchant, nonce)),
            events: self.events.push(Event::NonceInvalidated { merchant, nonce, timestamp: now }),
            ..self
        }
    }

    /// Whether `signature` is the valid signature, under the key registered
    /// for `merchant`, of the canonical message of the invoice.
    pub open spec fn signature_valid(
        self,
        merchant: Address,
        description: Seq<u8>,
        amount: i128,
        token: Address,
        nonce: [u8; 32],
        signature: [u8; 64],
    ) -> bool {
        ed25519_accepts(
            self.merchant_key(merchant)->0@,
            invoice_message(self.contract, merchant, description, amount, token, nonce@),
            signature@,
        )
    }

    /// The state after a signed invoice is created: the nonce is consumed
    /// and the invoice stored.
    pub open spec fn with_signed_invoice(
        self,
        merchant: Address,
        description: String,
        amount: i128,
        token: Address,
        nonce: [u8; 32],
        now: u64,
    ) -> ShadeView {
        self.nonce_consumed(merchant, nonce, now).with_new_invoice(merchant, self.new_invoice(merchant, description, amount, token, None, now))
    }

    /// Why merchant `merchant` may not act on invoice `id`, if it may not.
    pub open spec fn owner_error(self, merchant: Address, id: u64) -> Option<ContractError> {
        if self.paused {
            Some(ContractError::ContractPaused)
        } else if !self.invoice_exists(id) {
            Some(ContractError::InvoiceNotFound)
        } else if self.merchant_id(merchant) != Some(self.invoice(id).merchant_id) {
            Some(ContractError::NotAuthorized)
        } else {
            None
        }
    }

    /// Why `pay_invoice_partial` fails, if it does.
    pub open spec fn pay_error(self, payer: Address, id: u64, amount: i128, now: u64) -> Option<ContractError> {
        let inv = self.invoice(id);
        if self.paused {
            Some(ContractError::ContractPaused)
        } else if amount <= 0 {
            Some(ContractError::InvalidAmount)
        } else if !self.invoice_exists(id) {
            Some(ContractError::InvoiceNotFound)
        } else if inv.amount_paid + amount > inv.amount {
            Some(ContractError::InvalidAmount)
        } else if inv.status != InvoiceStatus::Pending && inv.status != InvoiceStatus::PartiallyPaid {
            Some(ContractError::InvalidInvoiceStatus)
        } else if inv.expires_at matches Some(e) && now >= e {
            Some(ContractError::InvoiceExpired)
        } else if !self.accepted_tokens.contains(inv.token) {
            Some(ContractError::TokenNotAccepted)
        } else if self.merchant_account(inv.merchant_id) is None {
            Some(ContractError::MerchantAccountNotSet)
        } else if inv.payer matches Some(p) && p != payer {
            Some(ContractError::NotAuthorized)
        } else {
            None
        }
    }

    /// The fee charged when `amount` is paid towards invoice `id`.
    pub open spec fn payment_fee(self, id: u64, amount: i128) -> i128 {
        fee_amount(amount, self.fee_of(self.invoice(id).token)) as i128
    }

    /// The token movements of a payment of `amount` by `payer` towards
    /// invoice `id`: the amount less the fee to the merchant account, then
    /// the fee, when there is one, to this contract.
    pub open spec fn payment_transfers(self, payer: Address, id: u64, amount: i128) -> Seq<Transfer> {
        let inv = self.invoice(id);
        let fee = self.payment_fee(id, amount);
        let net = Transfer {
            kind: TransferKind::Direct,
            token: inv.token,
            from: payer,
            to: self.merchant_account(inv.merchant_id)->0,
            amount: (amount - fee) as i128,
        };
        if fee > 0 {
            seq![net, Transfer { kind: TransferKind::Direct, token: inv.token, from: payer, to: self.contract, amount: fee }]
        } else {
            seq![net]
        }
    }

    /// The state after `payer` pays `amount` towards invoice `id` at `now`.
    pub open spec fn paid(self, payer: Address, id: u64, amount: i128, now: u64) -> ShadeView {
        let inv = self.invoice(id);
        ShadeView {
            invoices: self.invoices.update(id - 1, paid_invoice(inv, payer, amount, self.payment_fee(id, amount), now)),
            transfers: self.transfers + self.payment_transfers(payer, id, amount),
            events: self.events.push(Event::InvoicePaid {
                invoice_id: id,
                merchant_id: inv.merchant_id,
                merchant_account: self.merchant_account(inv.merchant_id)->0,
                payer,
                amount,
                fee: self.payment_fee(id, amount),
                token: inv.token,
                timestamp: now,
            }),
            ..self
        }
    }

    /// What remains to be paid on invoice `id`.
    pub open spec fn remaining(self, id: u64) -> i128 {
        (self.invoice(id).amount - self.invoice(id).amount_paid) as i128
    }

    /// Why `pay_invoice` fails, if it does.
    pub open spec fn pay_full_error(self, payer: Address, id: u64, now: u64) -> Option<ContractError> {
        let inv = self.invoice(id);
        if self.paused {
            Some(ContractError::ContractPaused)
        } else if !self.invoice_exists(id) {
            Some(ContractError::InvoiceNotFound)
        } else if inv.status != InvoiceStatus::Pending && inv.status != InvoiceStatus::PartiallyPaid {
            Some(ContractError::InvalidInvoiceStatus)
        } else {
            self.pay_error(payer, id, self.remaining(id), now)
        }
    }

    /// Why `refund_invoice_partial` fails, if it does.
    pub open spec fn refund_error(self, id: u64, amount: i128, now: u64) -> Option<ContractError> {
        let inv = self.invoice(id);
        if self.paused {
            Some(ContractError::ContractPaused)
        } else if !self.invoice_exists(id) {
            Some(ContractError::InvoiceNotFound)
        } else if inv.status != InvoiceStatus::Paid && inv.status != InvoiceStatus::PartiallyRefunded {
            Some(ContractError::InvalidInvoiceStatus)
        } else if refund_window_closed(inv.date_paid, now) {
            Some(ContractError::RefundPeriodExpired)
        } else if amount <= 0 || inv.amount_refunded + amount > inv.amount {
            Some(ContractError::InvalidAmount)
        } else if inv.payer is None {
            Some(ContractError::InvalidInvoiceStatus)
        } else if self.merchant_account(inv.merchant_id) is None {
            Some(ContractError::MerchantAccountNotSet)
        } else {
            None
        }
    }

    /// The state after `amount` of invoice `id` is refunded at `now`.
    pub open spec fn refunded(self, id: u64, amount: i128, now: u64) -> ShadeView {
        let inv = self.invoice(id);
        let total = (inv.amount_refunded + amount) as i128;
        let payer = inv.payer->0;
        ShadeView {
            invoices: self.invoices.update(id - 1, refunded_invoice(inv, amount)),
            transfers: self.transfers.push(Transfer {
                kind: TransferKind::EscrowRefund,
                token: inv.token,
                from: self.merchant_account(inv.merchant_id)->0,
                to: payer,
                amount,
            }),
            events: self.events.push(
                if total == inv.amount {
                    Event::InvoiceRefunded { invoice_id: id, payer, amount: inv.amount, timestamp: now }
                } else {
                    Event::InvoicePartiallyRefunded { invoice_id: id, payer, amount, total_refunded: total, timestamp: now }
                },
            ),
            ..self
        }
    }

    /// Why `refund_invoice` fails, if it does.
    pub open spec fn refund_full_error(self, merchant: Address, id: u64, now: u64) -> Option<ContractError> {
        let inv = self.invoice(id);
        if self.owner_error(merchant, id) is Some {
            self.owner_error(merchant, id)
        } else if inv.status != InvoiceStatus::Paid && inv.status != InvoiceStatus::PartiallyRefunded {
            Some(ContractError::InvalidInvoiceStatus)
        } else if refund_window_closed(inv.date_paid, now) {
            Some(ContractError::RefundPeriodExpired)
        } else if inv.payer is None {
            Some(ContractError::InvalidInvoiceStatus)
        } else if self.merchant_account(inv.merchant_id) is None {
            Some(ContractError::MerchantAccountNotSet)
        } else {
            None
        }
    }

    /// The state after invoice `id` is refunded in full at `now`: it becomes
    /// Refunded, and the merchant account returns to the payer what it still
    /// holds of the payments; the protocol fees stay with the protocol.
    pub open spec fn fully_refunded(self, id: u64, now: u64) -> ShadeView {
        let inv = self.invoice(id);
        let payer = inv.payer->0;
        let back = full_refund_amount(inv);
        ShadeView {
            invoices: self.invoices.update(
                id - 1,
                Invoice { amount_refunded: inv.amount, status: InvoiceStatus::Refunded, ..inv },
            ),
            transfers: if back > 0 {
                self.transfers.push(Transfer {
                    kind: TransferKind::EscrowRefund,
                    token: inv.token,
                    from: self.merchant_account(inv.merchant_id)->0,
                    to: payer,
                    amount: back,
                })
            } else {
                self.transfers
            },
            events: self.events.push(Event::InvoiceRefunded { invoice_id: id, payer, amount: back, timestamp: now }),
            ..self
        }
    }

    /// Why `void_invoice` fails, if it does.
    pub open spec fn void_error(self, merchant: Address, id: u64) -> Option<ContractError> {
        if self.owner_error(merchant, id) is Some {
            self.owner_error(merchant, id)
        } else if self.invoice(id).status != InvoiceStatus::Pending {
            Some(ContractError::InvalidInvoiceStatus)
        } else {
            None
        }
    }

    /// The state after merchant `merchant` voids invoice `id` at `now`.
    pub open spec fn voided(self, merchant: Address, id: u64, now: u64) -> ShadeView {
        ShadeView {
            invoices: self.invoices.update(id - 1, Invoice { status: InvoiceStatus::Cancelled, ..self.invoice(id) }),
            events: self.events.push(Event::InvoiceCancelled { invoice_id: id, merchant, timestamp: now }),
            ..self
        }
    }

    /// Why `amend_invoice` fails, if it does.
    pub open spec fn amend_error(self, merchant: Address, id: u64, new_amount: Option<i128>) -> Option<ContractError> {
        if self.void_error(merchant, id) is Some {
            self.void_error(merchant, id)
        } else if new_amount matches Some(a) && a <= 0 {
            Some(ContractError::InvalidAmount)
        } else {
            None
        }
    }

    /// The state after merchant `merchant` amends invoice `id` at `now`.
    pub open spec fn amended(
        self,
        merchant: Address,
        id: u64,
        new_amount: Option<i128>,
        new_description: Option<String>,
        now: u64,
    ) -> ShadeView {
        let inv = self.invoice(id);
        let amount = match new_amount {
            Some(a) => a,
            None => inv.amount,
        };
        let description = match new_description {
            Some(d) => d,
            None => inv.description,
        };
        ShadeView {
            invoices: self.invoices.update(id - 1, Invoice { amount, description, ..inv }),
            events: self.events.push(Event::InvoiceAmended {
                invoice_id: id,
                merchant,
                old_amount: inv.amount,
                new_amount: amount,
                timestamp: now,
            }),
            ..self
        }
    }
}

impl Shade {
    /// Replacing invoice `k` by a consistent invoice with the same id and
    /// merchant keeps the invariant.
    proof fn lemma_invoice_replaced(before: ShadeView, after: ShadeView, k: int, inv: Invoice)
        requires
            before.wf(),
            0 <= k < before.invoices.len(),
            inv.id == before.invoices[k].id,
            inv.merchant_id == before.invoices[k].merchant_id,
            invoice_consistent(inv),
            after.invoices == before.invoices.update(k, inv),
            after.merchants == before.merchants,
            after.merchant_accounts == before.merchant_accounts,
            after.plans == before.plans,
            after.subscriptions == before.subscriptions,
            after.token_fees == before.token_fees,
        ensures
            after.wf(),
    {
        assert forall|i: int| 0 <= i < after.invoices.len() implies {
            &&& (#[trigger] after.invoices[i]).id == i + 1
            &&& invoice_consistent(after.invoices[i])
            &&& after.merchant_exists(after.invoices[i].merchant_id)
        } by {
            if i != k {
                assert(after.invoices[i] == before.invoices[i]);
            }
        }
    }

    /// Stores `inv` as the next invoice and records its creation.
    fn push_invoice(&mut self, merchant: &Address, inv: Invoice)
        requires
            old(self)@.wf(),
            inv.id == old(self)@.invoices.len() + 1,
            invoice_consistent(inv),
            old(self)@.merchant_exists(inv.merchant_id),
        ensures
            final(self)@ == old(self)@.with_new_invoice(*merchant, inv),
            final(self)@.wf(),
            old(self)@.evolves_to(final(self)@),
    {
        let event = Event::InvoiceCreated { invoice_id: inv.id, merchant: *merchant, amount: inv.amount, token: inv.token };
        self.invoices.push(inv);
        self.events.push(event);
    }

    /// Creates a pending invoice for `merchant` and returns its id.
    pub fn create_invoice(
        &mut self,
        merchant: &Address,
        description: String,
        amount: i128,
        token: &Address,
        expires_at: Option<u64>,
        now: u64,
    ) -> (r: Result<u64, ContractError>)
        requires
            old(self)@.wf(),
            old(self)@.invoices.len() < u64::MAX,
        ensures
            final(self)@.wf(),
            old(self)@.evolves_to(final(self)@),
            step(r, old(self)@.create_error(*merchant, amount), old(self)@, final(self)@, old(self)@.with_new_invoice(*merchant, old(self)@.new_invoice(*merchant, description, amount, *token, expires_at, now))),
            r matches Ok(id) ==> id == old(self)@.invoices.len() + 1,
    {
        self.assert_not_paused()?;
        if amount <= 0 {
            return Err(ContractError::InvalidAmount);
        }
        let merchant_id = match self.find_merchant(merchant) {
            Some(id) => id,
            None => return Err(ContractError::NotAuthorized),
        };
        let id = self.invoices.len() as u64 + 1;
        let inv = Invoice {
            id,
            description,
            amount,
            token: *token,
            status: InvoiceStatus::Pending,
            merchant_id,
            payer: None,
            date_created: now,
            date_paid: None,
            amount_paid: 0,
            amount_refunded: 0,
            fees_paid: 0,
            expires_at,
        };
        self.push_invoice(merchant, inv);
        Ok(id)
    }

    /// Creates a pending invoice for `merchant` on the authority of the
    /// merchant's Ed25519 signature over the canonical message, submitted by
    /// a Manager or the administrator; the nonce is consumed.
    pub fn create_invoice_signed(
        &mut self,
        caller: &Address,
        merchant: &Address,
        description: String,
        amount: i128,
        token: &Address,
        nonce: &[u8; 32],
        signature: &[u8; 64],
        now: u64,
    ) -> (r: Result<u64, ContractError>)
        requires
            old(self)@.wf(),
            old(self)@.invoices.len() < u64::MAX,
            encode_utf8(description@).len() <= u32::MAX,
        ensures
            final(self)@.wf(),
            old(self)@.evolves_to(final(self)@),
            step(r, old(self)@.create_checked_error(*caller, *merchant, amount, *nonce, old(self)@.signature_valid(*merchant, encode_utf8(description@), amount, *token, *nonce, *signature)), old(self)@, final(self)@, old(self)@.with_signed_invoice(*merchant, description, amount, *token, *nonce, now)),
            r matches Ok(id) ==> id == old(self)@.invoices.len() + 1,
    {
        let valid = match self.find_key(merchant) {
            Some(key) => verify_invoice_signature(&key, &self.contract, merchant, description.as_str(), amount, token, nonce, signature),
            None => false,
        };
        self.create_invoice_signed_checked(caller, merchant, description, amount, token, nonce, valid, now)
    }

    /// Consumes `nonce` for `merchant`; fails with `NonceAlreadyUsed` if it
    /// was consumed before. Nonces are scoped per merchant.
    pub fn invalidate_nonce(&mut self, merchant: &Address, nonce: &[u8; 32], now: u64) -> (r: Result<(), ContractError>)
        requires
            old(self)@.wf(),
        ensures
            final(self)@.wf(),
            old(self)@.evolves_to(final(self)@),
            step(r, old(self)@.nonce_error(*merchant, *nonce), old(self)@, final(self)@, old(self)@.nonce_consumed(*merchant, *nonce, now)),
    {
        if self.nonce_seen(merchant, nonce) {
            return Err(ContractError::NonceAlreadyUsed);
        }
        self.used_nonces.push((*merchant, *nonce));
        self.events.push(Event::NonceInvalidated { merchant: *merchant, nonce: *nonce, timestamp: now });
        Ok(())
    }

    /// Creates a pending invoice for `merchant` once the merchant's signature
    /// has been checked, with outcome `signature_valid`: submitted by a
    /// Manager or the administrator, the nonce is consumed.
    pub fn create_invoice_signed_checked(
        &mut self,
        caller: &Address,
        merchant: &Address,
        description: String,
        amount: i128,
        token: &Address,
        nonce: &[u8; 32],
        signature_valid: bool,
        now: u64,
    ) -> (r: Result<u64, ContractError>)
        requires
            old(self)@.wf(),
            old(self)@.invoices.len() < u64::MAX,
        ensures
            final(self)@.wf(),
            old(self)@.evolves_to(final(self)@),
            step(r, old(self)@.create_checked_error(*caller, *merchant, amount, *nonce, signature_valid), old(self)@, final(self)@, old(self)@.with_signed_invoice(*merchant, description, amount, *token, *nonce, now)),
            r matches Ok(id) ==> id == old(self)@.invoices.len() + 1,
    {
        self.assert_not_paused()?;
        if !self.has_role(caller, Role::Manager) && !self.has_role(caller, Role::Admin) {
            return Err(ContractError::NotAuthorized);
        }
        if amount <= 0 {
            return Err(ContractError::InvalidAmount);
        }
        let merchant_id = match self.find_merchant(merchant) {
            Some(id) => id,
            None => return Err(ContractError::MerchantNotFound),
        };
        if self.find_key(merchant).is_none() {
            return Err(ContractError::MerchantKeyNotFound);
        }
        if !signature_valid {
            return Err(ContractError::InvalidSignature);
        }
        self.invalidate_nonce(merchant, nonce, now)?;
        let id = self.invoices.len() as u64 + 1;
        let inv = Invoice {
            id,
            description,
            amount,
            token: *token,
            status: InvoiceStatus::Pending,
            merchant_id,
            payer: None,
            date_created: now,
            date_paid: None,
            amount_paid: 0,
            amount_refunded: 0,
            fees_paid: 0,
            expires_at: None,
        };
        self.push_invoice(merchant, inv);
        Ok(id)
    }

    /// The invoice with id `id`.
    pub fn get_invoice(&self, id: u64) -> (r: Result<&Invoice, ContractError>)
        ensures
            !self@.invoice_exists(id) ==> r == Err::<&Invoice, ContractError>(ContractError::InvoiceNotFound),
            self@.invoice_exists(id) ==> r == Ok::<&Invoice, ContractError>(&self@.invoice(id)),
    {
        if id == 0 || id > self.invoices.len() as u64 {
            return Err(ContractError::InvoiceNotFound);
        }
        Ok(&self.invoices[(id - 1) as usize])
    }

    /// Copies of the invoices that pass `filter`, by increasing id.
    pub fn get_invoices(&self, filter: &InvoiceFilter) -> (r: Vec<Invoice>)
        requires
            self@.wf(),
        ensures
            r@.len() == invoices_matching(self@.invoices, *filter, self@.merchant_id(filter.merchant->0)).len(),
            forall|i: int| 0 <= i < r@.len() ==> (#[trigger] r@[i]).same_as(&invoices_matching(self@.invoices, *filter, self@.merchant_id(filter.merchant->0))[i]),
    {
        let merchant_id = match &filter.merchant {
            Some(m) => self.find_merchant(m),
            None => None,
        };
        let ghost mid = self@.merchant_id(filter.merchant->0);
        assert(filter.merchant is Some ==> merchant_id == mid);
        let mut out: Vec<Invoice> = Vec::new();
        let mut i: usize = 0;
        while i < self.invoices.len()
            invariant
                0 <= i <= self.invoices@.len(),
                filter.merchant is Some ==> merchant_id == mid,
                out@.len() == invoices_matching(self.invoices@.take(i as int), *filter, mid).len(),
                forall|j: int| 0 <= j < out@.len() ==> (#[trigger] out@[j]).same_as(&invoices_matching(self.invoices@.take(i as int), *filter, mid)[j]),
            decreases self.invoices@.len() - i,
        {
            let inv = &self.invoices[i];
            proof {
                reveal(Seq::filter);
                assert(self.invoices@.take(i + 1).drop_last() =~= self.invoices@.take(i as int));
                assert(self.invoices@.take(i + 1).last() == *inv);
            }
            let keep = match filter.status {
                Some(s) => inv.status.code() == s,
                None => true,
            } && match &filter.merchant {
                Some(_) => match merchant_id {
                    Some(m) => inv.merchant_id == m,
                    None => false,
                },
                None => true,
            } && match filter.min_amount {
                Some(m) => inv.amount >= 0 && inv.amount as u128 >= m,
                None => true,
            } && match filter.max_amount {
                Some(m) => inv.amount < 0 || inv.amount as u128 <= m,
                None => true,
            } && match filter.start_date {
                Some(d) => inv.date_created >= d,
                None => true,
            } && match filter.end_date {
                Some(d) => inv.date_created <= d,
                None => true,
            };
            assert(keep == invoice_matches(*filter, mid, *inv));
            if keep {
                out.push(inv.duplicate());
            }
            i = i + 1;
        }
        assert(self.invoices@.take(i as int) =~= self.invoices@);
        out
    }

    /// Pays `amount` of invoice `id` on behalf of `payer` and returns the
    /// protocol fee taken from it. The amount less the fee goes to the
    /// merchant account and the fee to this contract; the invoice becomes
    /// Paid when fully paid, else PartiallyPaid.
    pub fn pay_invoice_partial(&mut self, payer: &Address, id: u64, amount: i128, now: u64) -> (r: Result<i128, ContractError>)
        requires
            old(self)@.wf(),
        ensures
            final(self)@.wf(),
            old(self)@.evolves_to(final(self)@),
            step(r, old(self)@.pay_error(*payer, id, amount, now), old(self)@, final(self)@, old(self)@.paid(*payer, id, amount, now)),
            r matches Ok(fee) ==> fee == old(self)@.payment_fee(id, amount),
    {
        self.assert_not_paused()?;
        if amount <= 0 {
            return Err(ContractError::InvalidAmount);
        }
        if id == 0 || id > self.invoices.len() as u64 {
            return Err(ContractError::InvoiceNotFound);
        }
        let k = (id - 1) as usize;
        let ghost inv = self.invoices@[k as int];
        assert(invoice_consistent(inv));
        if amount > self.invoices[k].amount - self.invoices[k].amount_paid {
            return Err(ContractError::InvalidAmount);
        }
        let status = self.invoices[k].status;
        if status != InvoiceStatus::Pending && status != InvoiceStatus::PartiallyPaid {
            return Err(ContractError::InvalidInvoiceStatus);
        }
        if let Some(e) = self.invoices[k].expires_at {
            if now >= e {
                return Err(ContractError::InvoiceExpired);
            }
        }
        let token = self.invoices[k].token;
        if !self.token_accepted(&token) {
            return Err(ContractError::TokenNotAccepted);
        }
        let merchant_id = self.invoices[k].merchant_id;
        let account = match self.get_merchant_account(merchant_id) {
            Ok(a) => a,
            Err(e) => return Err(e),
        };
        if let Some(p) = self.invoices[k].payer {
            if p != *payer {
                return Err(ContractError::NotAuthorized);
            }
        }
        let bps = self.fee_bps(&token);
        proof {
            assert(bps == self@.fee_of(token));
            crate::shade::lemma_fee_in_range(self@, token);
        }
        let fee = fee_for_amount(amount, bps);
        let contract = self.contract;
        let ghost before = self@;
        self.transfers.push(Transfer { kind: TransferKind::Direct, token, from: *payer, to: account, amount: amount - fee });
        if fee > 0 {
            self.transfers.push(Transfer { kind: TransferKind::Direct, token, from: *payer, to: contract, amount: fee });
        }
        assert(self.transfers@ =~= before.transfers + before.payment_transfers(*payer, id, amount));
        let paid = self.invoices[k].amount_paid + amount;
        let full = paid == self.invoices[k].amount;
        let fees = self.invoices[k].fees_paid + fee;
        self.invoices[k].amount_paid = paid;
        self.invoices[k].fees_paid = fees;
        self.invoices[k].payer = Some(*payer);
        if full {
            self.invoices[k].status = InvoiceStatus::Paid;
            self.invoices[k].date_paid = Some(now);
        } else {
            self.invoices[k].status = InvoiceStatus::PartiallyPaid;
        }
        assert(self.invoices@[k as int] == paid_invoice(inv, *payer, amount, fee, now));
        assert(self.invoices@ =~= old(self)@.invoices.update(k as int, paid_invoice(inv, *payer, amount, fee, now)));
        self.events.push(Event::InvoicePaid {
            invoice_id: id,
            merchant_id,
            merchant_account: account,
            payer: *payer,
            amount,
            fee,
            token,
            timestamp: now,
        });
        proof {
            Self::lemma_invoice_replaced(old(self)@, self@, k as int, paid_invoice(inv, *payer, amount, fee, now));
        }
        Ok(fee)
    }

    /// Pays what remains of invoice `id` on behalf of `payer` and returns the
    /// protocol fee taken from it.
    pub fn pay_invoice(&mut self, payer: &Address, id: u64, now: u64) -> (r: Result<i128, ContractError>)
        requires
            old(self)@.wf(),
        ensures
            final(self)@.wf(),
            old(self)@.evolves_to(final(self)@),
            step(r, old(self)@.pay_full_error(*payer, id, now), old(self)@, final(self)@, old(self)@.paid(*payer, id, old(self)@.remaining(id), now)),
            r matches Ok(fee) ==> fee == old(self)@.payment_fee(id, old(self)@.remaining(id)),
    {
        self.assert_not_paused()?;
        if id == 0 || id > self.invoices.len() as u64 {
            return Err(ContractError::InvoiceNotFound);
        }
        let k = (id - 1) as usize;
        assert(invoice_consistent(self.invoices@[k as int]));
        let status = self.invoices[k].status;
        if status != InvoiceStatus::Pending && status != InvoiceStatus::PartiallyPaid {
            return Err(ContractError::InvalidInvoiceStatus);
        }
        let remaining = self.invoices[k].amount - self.invoices[k].amount_paid;
        self.pay_invoice_partial(payer, id, remaining, now)
    }

    /// Refunds `amount` of invoice `id` to its payer from the merchant
    /// account, within the refund window; the invoice becomes Refunded when
    /// fully refunded, else PartiallyRefunded.
    pub fn refund_invoice_partial(&mut self, id: u64, amount: i128, now: u64) -> (r: Result<(), ContractError>)
        requires
            old(self)@.wf(),
        ensures
            final(self)@.wf(),
            old(self)@.evolves_to(final(self)@),
            step(r, old(self)@.refund_error(id, amount, now), old(self)@, final(self)@, old(self)@.refunded(id, amount, now)),
    {
        self.assert_not_paused()?;
        if id == 0 || id > self.invoices.len() as u64 {
            return Err(ContractError::InvoiceNotFound);
        }
        let k = (id - 1) as usize;
        let ghost inv = self.invoices@[k as int];
        assert(invoice_consistent(inv));
        let status = self.invoices[k].status;
        if status != InvoiceStatus::Paid && status != InvoiceStatus::PartiallyRefunded {
            return Err(ContractError::InvalidInvoiceStatus);
        }
        if let Some(p) = self.invoices[k].date_paid {
            if now > p && now - p > MAX_REFUND_DURATION {
                return Err(ContractError::RefundPeriodExpired);
            }
        }
        if amount <= 0 || amount > self.invoices[k].amount - self.invoices[k].amount_refunded {
            return Err(ContractError::InvalidAmount);
        }
        let payer = match self.invoices[k].payer {
            Some(p) => p,
            None => return Err(ContractError::InvalidInvoiceStatus),
        };
        let merchant_id = self.invoices[k].merchant_id;
        let account = match self.get_merchant_account(merchant_id) {
            Ok(a) => a,
            Err(e) => return Err(e),
        };
        let token = self.invoices[k].token;
        let total = self.invoices[k].amount_refunded + amount;
        let full = total == self.invoices[k].amount;
        let invoice_amount = self.invoices[k].amount;
        self.invoices[k].amount_refunded = total;
        if full {
            self.invoices[k].status = InvoiceStatus::Refunded;
        } else {
            self.invoices[k].status = InvoiceStatus::PartiallyRefunded;
        }
        assert(self.invoices@[k as int] == refunded_invoice(inv, amount));
        assert(self.invoices@ =~= old(self)@.invoices.update(k as int, refunded_invoice(inv, amount)));
        self.transfers.push(Transfer { kind: TransferKind::EscrowRefund, token, from: account, to: payer, amount });
        if full {
            self.events.push(Event::InvoiceRefunded { invoice_id: id, payer, amount: invoice_amount, timestamp: now });
        } else {
            self.events.push(Event::InvoicePartiallyRefunded { invoice_id: id, payer, amount, total_refunded: total, timestamp: now });
        }
        proof {
            Self::lemma_invoice_replaced(old(self)@, self@, k as int, refunded_invoice(inv, amount));
        }
        Ok(())
    }

    /// Refunds invoice `id` in full within the refund window; `merchant` must
    /// own the invoice. The payer gets back what the merchant account holds of
    /// the payments, that is the amount paid less the protocol fees and less
    /// the partial refunds already made.
    pub fn refund_invoice(&mut self, merchant: &Address, id: u64, now: u64) -> (r: Result<(), ContractError>)
        requires
            old(self)@.wf(),
        ensures
            final(self)@.wf(),
            old(self)@.evolves_to(final(self)@),
            step(r, old(self)@.refund_full_error(*merchant, id, now), old(self)@, final(self)@, old(self)@.fully_refunded(id, now)),
    {
        self.check_owner(merchant, id)?;
        let k = (id - 1) as usize;
        let ghost inv = self.invoices@[k as int];
        assert(invoice_consistent(inv));
        let status = self.invoices[k].status;
        if status != InvoiceStatus::Paid && status != InvoiceStatus::PartiallyRefunded {
            return Err(ContractError::InvalidInvoiceStatus);
        }
        if let Some(p) = self.invoices[k].date_paid {
            if now > p && now - p > MAX_REFUND_DURATION {
                return Err(ContractError::RefundPeriodExpired);
            }
        }
        let payer = match self.invoices[k].payer {
            Some(p) => p,
            None => return Err(ContractError::InvalidInvoiceStatus),
        };
        let account = match self.get_merchant_account(self.invoices[k].merchant_id) {
            Ok(a) => a,
            Err(e) => return Err(e),
        };
        let token = self.invoices[k].token;
        let held = self.invoices[k].amount_paid - self.invoices[k].fees_paid - self.invoices[k].amount_refunded;
        let back: i128 = if held > 0 { held } else { 0 };
        let amount = self.invoices[k].amount;
        self.invoices[k].amount_refunded = amount;
        self.invoices[k].status = InvoiceStatus::Refunded;
        let ghost new_inv = Invoice { amount_refunded: inv.amount, status: InvoiceStatus::Refunded, ..inv };
        assert(self.invoices@[k as int] == new_inv);
        assert(self.invoices@ =~= old(self)@.invoices.update(k as int, new_inv));
        if back > 0 {
            self.transfers.push(Transfer { kind: TransferKind::EscrowRefund, token, from: account, to: payer, amount: back });
        }
        self.events.push(Event::InvoiceRefunded { invoice_id: id, payer, amount: back, timestamp: now });
        proof {
            Self::lemma_invoice_replaced(old(self)@, self@, k as int, new_inv);
        }
        Ok(())
    }

    /// Fails unless `merchant` owns invoice `id` and the contract is not paused.
    fn check_owner(&self, merchant: &Address, id: u64) -> (r: Result<(), ContractError>)
        requires
            self@.wf(),
        ensures
            self@.owner_error(*merchant, id) matches Some(e) ==> r == Err::<(), ContractError>(e),
            self@.owner_error(*merchant, id) is None ==> r is Ok && self@.invoice_exists(id) && id <= self.invoices.len(),
    {
        self.assert_not_paused()?;
        if id == 0 || id > self.invoices.len() as u64 {
            return Err(ContractError::InvoiceNotFound);
        }
        let owner = self.invoices[(id - 1) as usize].merchant_id;
        match self.find_merchant(merchant) {
            Some(m) => if m == owner {
                Ok(())
            } else {
                Err(ContractError::NotAuthorized)
            },
            None => Err(ContractError::NotAuthorized),
        }
    }

    /// Cancels pending invoice `id`; `merchant` must own it.
    pub fn void_invoice(&mut self, merchant: &Address, id: u64, now: u64) -> (r: Result<(), ContractError>)
        requires
            old(self)@.wf(),
        ensures
            final(self)@.wf(),
            old(self)@.evolves_to(final(self)@),
            step(r, old(self)@.void_error(*merchant, id), old(self)@, final(self)@, old(self)@.voided(*merchant, id, now)),
    {
        self.check_owner(merchant, id)?;
        let k = (id - 1) as usize;
        let ghost inv = self.invoices@[k as int];
        if self.invoices[k].status != InvoiceStatus::Pending {
            return Err(ContractError::InvalidInvoiceStatus);
        }
        self.invoices[k].status = InvoiceStatus::Cancelled;
        self.events.push(Event::InvoiceCancelled { invoice_id: id, merchant: *merchant, timestamp: now });
        proof {
            Self::lemma_invoice_replaced(old(self)@, self@, k as int, Invoice { status: InvoiceStatus::Cancelled, ..inv });
        }
        Ok(())
    }

    /// Changes the amount or the description of pending invoice `id`;
    /// `merchant` must own it and a new amount must be positive.
    pub fn amend_invoice(
        &mut self,
        merchant: &Address,
        id: u64,
        new_amount: Option<i128>,
        new_description: Option<String>,
        now: u64,
    ) -> (r: Result<(), ContractError>)
        requires
            old(self)@.wf(),
        ensures
            final(self)@.wf(),
            old(self)@.evolves_to(final(self)@),
            step(r, old(self)@.amend_error(*merchant, id, new_amount), old(self)@, final(self)@, old(self)@.amended(*merchant, id, new_amount, new_description, now)),
    {
        self.check_owner(merchant, id)?;
        let k = (id - 1) as usize;
        let ghost inv = self.invoices@[k as int];
        if self.invoices[k].status != InvoiceStatus::Pending {
            return Err(ContractError::InvalidInvoiceStatus);
        }
        if let Some(a) = new_amount {
            if a <= 0 {
                return Err(ContractError::InvalidAmount);
            }
        }
        let old_amount = self.invoices[k].amount;
        let ghost nd = new_description;
        if let Some(a) = new_amount {
            self.invoices[k].amount = a;
        }
        if let Some(d) = new_description {
            self.invoices[k].description = d;
        }
        let amount = self.invoices[k].amount;
        self.events.push(Event::InvoiceAmended { invoice_id: id, merchant: *merchant, old_amount, new_amount: amount, timestamp: now });
        proof {
            let a = match new_amount {
                Some(a) => a,
                None => inv.amount,
            };
            let d = match nd {
                Some(d) => d,
                None => inv.description,
            };
            assert(self.invoices@[k as int] == (Invoice { amount: a, description: d, ..inv }));
            assert(self.invoices@ =~= old(self)@.invoices.update(k as int, Invoice { amount: a, description: d, ..inv }));
            Self::lemma_invoice_replaced(old(self)@, self@, k as int, Invoice { amount: a, description: d, ..inv });
        }
        Ok(())
    }
}

} // verus!
