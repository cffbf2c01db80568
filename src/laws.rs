//! Properties that hold across entry points and of every reachable state.
use vstd::prelude::*;
use crate::errors::ContractError;
use crate::invoice::{escrow_held, full_refund_amount, paid_invoice};
use crate::shade::{invoice_consistent, with_item, without_item, ShadeView, MAX_REFUND_DURATION};
use crate::types::{Address, Event, InvoiceStatus, Role, Transfer};

verus! {

/// How much the balance of `who` in `token` changes when the movements `ts`
/// are carried out.
pub open spec fn balance_change(ts: Seq<Transfer>, token: Address, who: Address) -> int
    decreases ts.len(),
{
    if ts.len() == 0 {
        0
    } else {
        let t = ts.last();
        let incoming = if t.token == token && t.to == who { t.amount as int } else { 0 };
        let outgoing = if t.token == token && t.from == who { t.amount as int } else { 0 };
        balance_change(ts.drop_last(), token, who) + incoming - outgoing
    }
}

/// The fee that an event reports for a payment towards invoice `id`.
pub open spec fn reported_fee(e: Event, id: u64) -> Option<i128> {
    match e {
        Event::InvoicePaid { invoice_id, fee, .. } => if invoice_id == id {
            Some(fee)
        } else {
            None
        },
        _ => None,
    }
}

/// Balance changes add up over consecutive batches of movements.
pub proof fn lemma_balance_change_additive(a: Seq<Transfer>, b: Seq<Transfer>, token: Address, who: Address)
    ensures
        balance_change(a + b, token, who) == balance_change(a, token, who) + balance_change(b, token, who),
    decreases b.len(),
{
    if b.len() == 0 {
        assert(a + b =~= a);
    } else {
        assert((a + b).drop_last() =~= a + b.drop_last());
        assert((a + b).last() == b.last());
        lemma_balance_change_additive(a, b.drop_last(), token, who);
    }
}

/// The balance change of a single movement.
pub proof fn lemma_balance_change_single(t: Transfer, token: Address, who: Address)
    ensures
        balance_change(seq![t], token, who) == (if t.token == token && t.to == who { t.amount as int } else { 0 })
            - (if t.token == token && t.from == who { t.amount as int } else { 0 }),
{
    assert(seq![t].drop_last() =~= Seq::<Transfer>::empty());
    assert(seq![t].last() == t);
    assert(balance_change(Seq::<Transfer>::empty(), token, who) == 0);
}

/// Every stored invoice's paid and refunded amounts lie between zero and its
/// amount, and its status agrees with them: Paid exactly when fully paid and
/// nothing refunded, PartiallyPaid exactly when partly paid, Refunded exactly
/// when fully refunded, PartiallyRefunded exactly when fully paid and partly
/// refunded.
pub proof fn lemma_invoice_amounts(s: ShadeView, id: u64)
    requires
        s.wf(),
        s.invoice_exists(id),
    ensures
        0 <= s.invoice(id).amount_paid <= s.invoice(id).amount,
        0 <= s.invoice(id).amount_refunded <= s.invoice(id).amount,
        (s.invoice(id).status == InvoiceStatus::Paid) == (s.invoice(id).amount_paid == s.invoice(id).amount
            && s.invoice(id).amount_refunded == 0),
        (s.invoice(id).status == InvoiceStatus::PartiallyPaid) == (0 < s.invoice(id).amount_paid < s.invoice(id).amount),
        (s.invoice(id).status == InvoiceStatus::Refunded) == (s.invoice(id).amount_refunded == s.invoice(id).amount),
        (s.invoice(id).status == InvoiceStatus::PartiallyRefunded) == (0 < s.invoice(id).amount_refunded
            < s.invoice(id).amount && s.invoice(id).amount_paid == s.invoice(id).amount),
{
    assert(invoice_consistent(s.invoices[id - 1]));
}

/// Following states compose: what holds from `a` to `b` and from `b` to `c`
/// holds from `a` to `c`, so the counters never go down and nothing is
/// removed from the consumed nonces over any run of entry points.
pub proof fn lemma_evolves_transitive(a: ShadeView, b: ShadeView, c: ShadeView)
    requires
        a.evolves_to(b),
        b.evolves_to(c),
    ensures
        a.evolves_to(c),
{
    assert forall|i: int| 0 <= i < a.used_nonces.len() implies c.used_nonces[i] == #[trigger] a.used_nonces[i] by {
        assert(b.used_nonces[i] == a.used_nonces[i]);
    }
    assert forall|i: int| 0 <= i < a.events.len() implies c.events[i] == #[trigger] a.events[i] by {
        assert(b.events[i] == a.events[i]);
    }
    assert forall|i: int| 0 <= i < a.transfers.len() implies c.transfers[i] == #[trigger] a.transfers[i] by {
        assert(b.transfers[i] == a.transfers[i]);
    }
}

/// A consumed nonce stays consumed in every later state.
pub proof fn lemma_nonce_stays_used(s: ShadeView, t: ShadeView, merchant: Address, nonce: [u8; 32])
    requires
        s.evolves_to(t),
        s.nonce_used(merchant, nonce),
    ensures
        t.nonce_used(merchant, nonce),
{
    let i = choose|i: int| 0 <= i < s.used_nonces.len() && s.used_nonces[i] == (merchant, nonce);
    assert(t.used_nonces[i] == s.used_nonces[i]);
}

/// The address of merchant `id` maps back to `id`.
pub proof fn lemma_merchant_id_of_address(s: ShadeView, id: u64)
    requires
        s.wf(),
        s.merchant_exists(id),
    ensures
        s.merchant_id(s.merchant(id).address) == Some(id),
{
    let a = s.merchant(id).address;
    assert(s.merchants[id - 1].address == a);
    let k = s.merchant_index(a);
    assert(s.merchants[k].address == a);
    assert(s.merchants[k].id == k + 1);
    assert(s.merchants[id - 1].id == id);
}

/// A payment towards an invoice reports a fee in its event, and this contract's
/// balance in the invoice's token grows by exactly that fee.
pub proof fn lemma_payment_fee_reaches_contract(s: ShadeView, payer: Address, id: u64, amount: i128, now: u64)
    requires
        s.wf(),
        s.pay_error(payer, id, amount, now) is None,
        payer != s.contract,
        s.merchant_account(s.invoice(id).merchant_id)->0 != s.contract,
    ensures
        reported_fee(s.paid(payer, id, amount, now).events.last(), id) == Some(s.payment_fee(id, amount)),
        balance_change(s.paid(payer, id, amount, now).transfers, s.invoice(id).token, s.contract)
            == balance_change(s.transfers, s.invoice(id).token, s.contract) + s.payment_fee(id, amount),
{
    let ts = s.payment_transfers(payer, id, amount);
    let inv = s.invoice(id);
    let token = inv.token;
    let fee = s.payment_fee(id, amount);
    lemma_payment_fee_nonnegative(s, id, amount);
    lemma_balance_change_additive(s.transfers, ts, token, s.contract);
    let net = ts[0];
    lemma_balance_change_single(net, token, s.contract);
    if fee > 0 {
        assert(ts.drop_last() =~= seq![net]);
        assert(balance_change(ts, token, s.contract) == fee);
    } else {
        assert(ts =~= seq![net]);
    }
}

/// Refunds never take back the protocol fee: a partial or a full refund
/// leaves this contract's balance in the invoice's token unchanged.
pub proof fn lemma_refund_keeps_fee(s: ShadeView, merchant: Address, id: u64, amount: i128, now: u64)
    requires
        s.wf(),
        s.invoice_exists(id),
        s.invoice(id).payer->0 != s.contract,
        s.merchant_account(s.invoice(id).merchant_id)->0 != s.contract,
    ensures
        s.refund_error(id, amount, now) is None ==> balance_change(s.refunded(id, amount, now).transfers, s.invoice(id).token, s.contract)
            == balance_change(s.transfers, s.invoice(id).token, s.contract),
        s.refund_full_error(merchant, id, now) is None ==> balance_change(s.fully_refunded(id, now).transfers, s.invoice(id).token, s.contract)
            == balance_change(s.transfers, s.invoice(id).token, s.contract),
{
    let inv = s.invoice(id);
    let token = inv.token;
    let account = s.merchant_account(inv.merchant_id)->0;
    let payer = inv.payer->0;
    let partial = Transfer { kind: crate::types::TransferKind::EscrowRefund, token, from: account, to: payer, amount };
    assert(s.transfers.push(partial) =~= s.transfers + seq![partial]);
    lemma_balance_change_single(partial, token, s.contract);
    lemma_balance_change_additive(s.transfers, seq![partial], token, s.contract);
    let back = full_refund_amount(inv);
    let full = Transfer { kind: crate::types::TransferKind::EscrowRefund, token, from: account, to: payer, amount: back };
    assert(s.transfers.push(full) =~= s.transfers + seq![full]);
    lemma_balance_change_single(full, token, s.contract);
    lemma_balance_change_additive(s.transfers, seq![full], token, s.contract);
}

/// The fee on a payment that can be made is never negative.
pub proof fn lemma_payment_fee_nonnegative(s: ShadeView, id: u64, amount: i128)
    requires
        s.wf(),
        amount > 0,
    ensures
        0 <= s.payment_fee(id, amount) <= amount,
{
    let bps = s.fee_of(s.invoice(id).token);
    crate::shade::lemma_fee_in_range(s, s.invoice(id).token);
    assert(0 <= amount * bps <= amount * 10000) by (nonlinear_arith)
        requires amount > 0, 0 <= bps <= 10000;
    vstd::arithmetic::div_mod::lemma_div_is_ordered(amount * bps, amount * 10000, 10000);
    vstd::arithmetic::div_mod::lemma_div_multiples_vanish(amount as int, 10000);
    vstd::arithmetic::div_mod::lemma_div_pos_is_pos(amount * bps, 10000);
}

/// Paying a pending invoice in full and then refunding it in full within the
/// refund window leaves the payer's balance changed by minus the protocol fee
/// and the merchant account's unchanged, and the invoice Refunded.
pub proof fn lemma_pay_then_refund(
    s: ShadeView,
    payer: Address,
    merchant: Address,
    id: u64,
    paid_at: u64,
    refunded_at: u64,
)
    requires
        s.wf(),
        s.invoice_exists(id),
        s.invoice(id).status == InvoiceStatus::Pending,
        s.pay_full_error(payer, id, paid_at) is None,
        s.merchant_id(merchant) == Some(s.invoice(id).merchant_id),
        refunded_at - paid_at <= MAX_REFUND_DURATION,
        payer != s.merchant_account(s.invoice(id).merchant_id)->0,
        payer != s.contract,
        s.merchant_account(s.invoice(id).merchant_id)->0 != s.contract,
    ensures
        ({
            let t = s.paid(payer, id, s.remaining(id), paid_at);
            let u = t.fully_refunded(id, refunded_at);
            let token = s.invoice(id).token;
            let account = s.merchant_account(s.invoice(id).merchant_id)->0;
            &&& t.refund_full_error(merchant, id, refunded_at) is None
            &&& u.invoice(id).status == InvoiceStatus::Refunded
            &&& balance_change(u.transfers, token, payer) == balance_change(s.transfers, token, payer) - s.payment_fee(id, s.remaining(id))
            &&& balance_change(u.transfers, token, account) == balance_change(s.transfers, token, account)
        }),
{
    let amount = s.remaining(id);
    let inv = s.invoice(id);
    let fee = s.payment_fee(id, amount);
    let t = s.paid(payer, id, amount, paid_at);
    let ts = s.payment_transfers(payer, id, amount);
    let token = inv.token;
    let account = s.merchant_account(inv.merchant_id)->0;
    assert(invoice_consistent(s.invoices[id - 1]));
    assert(amount == inv.amount);
    lemma_payment_fee_nonnegative(s, id, amount);
    let paid = paid_invoice(inv, payer, amount, fee, paid_at);
    assert(t.invoice(id) == paid);
    assert(paid.status == InvoiceStatus::Paid);
    assert(escrow_held(paid) == amount - fee);
    assert(t.merchants == s.merchants);
    let back = full_refund_amount(paid);
    let u = t.fully_refunded(id, refunded_at);
    let net = ts[0];
    assert(net.amount == amount - fee);
    lemma_balance_change_single(net, token, payer);
    lemma_balance_change_single(net, token, account);
    if fee > 0 {
        let ft = ts[1];
        assert(ts.drop_last() =~= seq![net]);
        lemma_balance_change_single(ft, token, payer);
        lemma_balance_change_single(ft, token, account);
        assert(ts =~= seq![net] + seq![ft]);
        lemma_balance_change_additive(seq![net], seq![ft], token, payer);
        lemma_balance_change_additive(seq![net], seq![ft], token, account);
    } else {
        assert(ts =~= seq![net]);
    }
    assert(balance_change(ts, token, payer) == -amount);
    assert(balance_change(ts, token, account) == amount - fee);
    lemma_balance_change_additive(s.transfers, ts, token, payer);
    lemma_balance_change_additive(s.transfers, ts, token, account);
    assert(t.transfers == s.transfers + ts);
    if back > 0 {
        let refund = Transfer {
            kind: crate::types::TransferKind::EscrowRefund,
            token,
            from: account,
            to: payer,
            amount: back,
        };
        assert(u.transfers =~= t.transfers + seq![refund]);
        lemma_balance_change_single(refund, token, payer);
        lemma_balance_change_single(refund, token, account);
        lemma_balance_change_additive(t.transfers, seq![refund], token, payer);
        lemma_balance_change_additive(t.transfers, seq![refund], token, account);
    } else {
        assert(u.transfers == t.transfers);
    }
}

/// Granting a role and then revoking it leaves whether the user holds it as
/// it was, for a user that did not hold it before (and for `Admin`, which
/// follows the stored administrator alone).
pub proof fn lemma_grant_then_revoke(s: ShadeView, user: Address, role: Role)
    requires
        role == Role::Admin || !s.has_role(user, role),
    ensures
        s.granted(user, role).revoked(user, role).has_role(user, role) == s.has_role(user, role),
{
    if role != Role::Admin {
        let v = s.granted(user, role).revoked(user, role);
        let roles = with_item(s.roles, (user, role));
        if v.roles.contains((user, role)) {
            let k = choose|k: int| 0 <= k < v.roles.len() && v.roles[k] == (user, role);
            roles.lemma_filter_pred(|y: (Address, Role)| y != (user, role), k);
        }
    }
}

/// Voiding a pending invoice requires no token movement, and voiding it a
/// second time fails with `InvalidInvoiceStatus`.
pub proof fn lemma_void_twice(s: ShadeView, merchant: Address, id: u64, now: u64)
    requires
        s.wf(),
        s.void_error(merchant, id) is None,
    ensures
        s.voided(merchant, id, now).transfers == s.transfers,
        s.voided(merchant, id, now).void_error(merchant, id) == Some(ContractError::InvalidInvoiceStatus),
{
    let t = s.voided(merchant, id, now);
    assert(t.merchants == s.merchants);
    assert(t.invoice(id).merchant_id == s.invoice(id).merchant_id);
}

} // verus!
