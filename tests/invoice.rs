use shade::errors::ContractError;
use shade::shade::Shade;
use shade::types::{Address, InvoiceFilter, InvoiceStatus, TransferKind};

const INVOICE_AMOUNT: i128 = 1_000;
const REFUND_WINDOW_SECS: u64 = 604_800;

fn account(n: u8) -> Address {
    Address::account([n; 32])
}

fn contract(n: u8) -> Address {
    Address::contract([n; 32])
}

fn moved(s: &Shade, token: &Address, who: &Address) -> i128 {
    let mut b: i128 = 0;
    for t in s.transfers.iter() {
        if t.token == *token && t.to == *who {
            b += t.amount;
        }
        if t.token == *token && t.from == *who {
            b -= t.amount;
        }
    }
    b
}

struct Ctx {
    shade: Shade,
    admin: Address,
    token: Address,
    merchant: Address,
    merchant_account: Address,
    payer: Address,
}

fn setup(fee: i128) -> Ctx {
    let mut shade = Shade::new(contract(1));
    let admin = account(2);
    let token = contract(3);
    shade.initialize(&admin, 0).unwrap();
    shade.add_accepted_token(&admin, &token).unwrap();
    shade.set_fee(&admin, &token, fee).unwrap();
    let merchant = account(4);
    shade.register_merchant(&merchant, 0).unwrap();
    let merchant_account = contract(5);
    shade.set_merchant_account(&merchant, &merchant_account).unwrap();
    Ctx { shade, admin, token, merchant, merchant_account, payer: account(6) }
}

fn create(c: &mut Ctx, amount: i128) -> u64 {
    let (merchant, token) = (c.merchant, c.token);
    c.shade.create_invoice(&merchant, "Test Invoice".to_string(), amount, &token, None, 0).unwrap()
}

/// An invoice paid in full at `paid_at`, with no fee taken.
fn paid_invoice(paid_at: u64) -> (Ctx, u64) {
    let mut c = setup(0);
    let id = create(&mut c, INVOICE_AMOUNT);
    let payer = c.payer;
    c.shade.pay_invoice(&payer, id, paid_at).unwrap();
    (c, id)
}

#[test]
fn test_void_invoice_success() {
    let mut c = setup(500);
    let id = create(&mut c, 1000);
    assert_eq!(c.shade.get_invoice(id).unwrap().status, InvoiceStatus::Pending);
    let merchant = c.merchant;
    c.shade.void_invoice(&merchant, id, 0).unwrap();
    assert_eq!(c.shade.get_invoice(id).unwrap().status, InvoiceStatus::Cancelled);
}

#[test]
fn test_void_invoice_unauthorized_random_address() {
    let mut c = setup(500);
    let id = create(&mut c, 1000);
    let r = c.shade.void_invoice(&account(9), id, 0);
    assert_eq!(r, Err(ContractError::NotAuthorized));
}

#[test]
fn test_void_invoice_unauthorized_different_merchant() {
    let mut c = setup(500);
    let id = create(&mut c, 1000);
    let other = account(8);
    c.shade.register_merchant(&other, 0).unwrap();
    assert_eq!(c.shade.void_invoice(&other, id, 0), Err(ContractError::NotAuthorized));
}

#[test]
fn test_void_invoice_already_paid() {
    let mut c = setup(500);
    let id = create(&mut c, 1000);
    let (payer, merchant) = (c.payer, c.merchant);
    c.shade.pay_invoice(&payer, id, 0).unwrap();
    let r = c.shade.void_invoice(&merchant, id, 0);
    assert_eq!(r, Err(ContractError::InvalidInvoiceStatus));
    assert_eq!(r.unwrap_err().code(), 16);
}

#[test]
fn test_pay_voided_invoice() {
    let mut c = setup(500);
    let id = create(&mut c, 1000);
    let (payer, merchant) = (c.payer, c.merchant);
    c.shade.void_invoice(&merchant, id, 0).unwrap();
    assert_eq!(c.shade.pay_invoice(&payer, id, 0), Err(ContractError::InvalidInvoiceStatus));
}

#[test]
fn test_void_invoice_already_cancelled() {
    let mut c = setup(500);
    let id = create(&mut c, 1000);
    let merchant = c.merchant;
    c.shade.void_invoice(&merchant, id, 0).unwrap();
    let transfers = c.shade.transfers.len();
    assert_eq!(c.shade.void_invoice(&merchant, id, 0), Err(ContractError::InvalidInvoiceStatus));
    assert_eq!(transfers, 0);
    assert_eq!(c.shade.transfers.len(), 0);
}

#[test]
fn test_void_nonexistent_invoice() {
    let mut c = setup(500);
    let merchant = c.merchant;
    let r = c.shade.void_invoice(&merchant, 999, 0);
    assert_eq!(r, Err(ContractError::InvoiceNotFound));
    assert_eq!(r.unwrap_err().code(), 8);
}

#[test]
fn test_void_refunded_invoice() {
    let (mut c, id) = paid_invoice(1_000);
    let merchant = c.merchant;
    c.shade.refund_invoice(&merchant, id, 1_000).unwrap();
    assert_eq!(c.shade.void_invoice(&merchant, id, 1_000), Err(ContractError::InvalidInvoiceStatus));
}

#[test]
fn test_void_invoice_state_isolation() {
    let mut c = setup(500);
    let id1 = create(&mut c, 1000);
    let id2 = create(&mut c, 2000);
    let id3 = create(&mut c, 3000);
    let merchant = c.merchant;
    c.shade.void_invoice(&merchant, id2, 0).unwrap();
    assert_eq!(c.shade.get_invoice(id1).unwrap().status, InvoiceStatus::Pending);
    assert_eq!(c.shade.get_invoice(id2).unwrap().status, InvoiceStatus::Cancelled);
    assert_eq!(c.shade.get_invoice(id3).unwrap().status, InvoiceStatus::Pending);
}

#[test]
fn test_partial_refund_single_balance_and_status() {
    let (mut c, id) = paid_invoice(1_000);
    assert_eq!(moved(&c.shade, &c.token, &c.merchant_account), INVOICE_AMOUNT);
    let payer_before = INVOICE_AMOUNT + moved(&c.shade, &c.token, &c.payer);
    assert_eq!(payer_before, 0);
    c.shade.refund_invoice_partial(id, 300, 1_001).unwrap();
    let invoice = c.shade.get_invoice(id).unwrap();
    assert_eq!(invoice.status, InvoiceStatus::PartiallyRefunded);
    assert_eq!(invoice.amount_refunded, 300);
    assert_eq!(moved(&c.shade, &c.token, &c.merchant_account), INVOICE_AMOUNT - 300);
    assert_eq!(INVOICE_AMOUNT + moved(&c.shade, &c.token, &c.payer), payer_before + 300);
    assert_eq!(c.shade.transfers.last().unwrap().kind, TransferKind::EscrowRefund);
}

#[test]
fn test_partial_refund_multiple_accumulates() {
    let (mut c, id) = paid_invoice(1_000);
    c.shade.refund_invoice_partial(id, 200, 1_001).unwrap();
    let inv = c.shade.get_invoice(id).unwrap();
    assert_eq!(inv.status, InvoiceStatus::PartiallyRefunded);
    assert_eq!(inv.amount_refunded, 200);
    c.shade.refund_invoice_partial(id, 400, 1_001).unwrap();
    let inv = c.shade.get_invoice(id).unwrap();
    assert_eq!(inv.status, InvoiceStatus::PartiallyRefunded);
    assert_eq!(inv.amount_refunded, 600);
    assert_eq!(moved(&c.shade, &c.token, &c.merchant_account), 400);
    assert_eq!(INVOICE_AMOUNT + moved(&c.shade, &c.token, &c.payer), 600);
}

#[test]
fn test_partial_refund_full_via_partial_transitions_to_refunded() {
    let (mut c, id) = paid_invoice(1_000);
    c.shade.refund_invoice_partial(id, 300, 1_001).unwrap();
    c.shade.refund_invoice_partial(id, 300, 1_001).unwrap();
    c.shade.refund_invoice_partial(id, 400, 1_001).unwrap();
    let inv = c.shade.get_invoice(id).unwrap();
    assert_eq!(inv.status, InvoiceStatus::Refunded);
    assert_eq!(inv.amount_refunded, INVOICE_AMOUNT);
    assert_eq!(moved(&c.shade, &c.token, &c.merchant_account), 0);
    assert_eq!(INVOICE_AMOUNT + moved(&c.shade, &c.token, &c.payer), INVOICE_AMOUNT);
}

#[test]
fn test_partial_refund_over_refund_panics() {
    let (mut c, id) = paid_invoice(1_000);
    c.shade.refund_invoice_partial(id, 600, 1_001).unwrap();
    assert_eq!(c.shade.refund_invoice_partial(id, 500, 1_001), Err(ContractError::InvalidAmount));
    assert_eq!(c.shade.get_invoice(id).unwrap().amount_refunded, 600);
}

#[test]
fn test_partial_refund_fails_after_seven_days() {
    let date_paid = 0;
    let (mut c, id) = paid_invoice(date_paid);
    let r = c.shade.refund_invoice_partial(id, 300, date_paid + REFUND_WINDOW_SECS + 1);
    assert_eq!(r, Err(ContractError::RefundPeriodExpired));
    assert_eq!(r.unwrap_err().code(), 17);
}

#[test]
fn test_partial_refund_zero_amount_panics() {
    let (mut c, id) = paid_invoice(1_000);
    assert_eq!(c.shade.refund_invoice_partial(id, 0, 1_001), Err(ContractError::InvalidAmount));
}

#[test]
fn test_partial_refund_negative_amount_panics() {
    let (mut c, id) = paid_invoice(1_000);
    assert_eq!(c.shade.refund_invoice_partial(id, -100, 1_001), Err(ContractError::InvalidAmount));
}

#[test]
fn test_refund_successful_within_window() {
    let (mut c, id) = paid_invoice(1_000);
    let merchant = c.merchant;
    c.shade.refund_invoice(&merchant, id, 1_000 + 3_600).unwrap();
    let inv = c.shade.get_invoice(id).unwrap();
    assert_eq!(inv.status, InvoiceStatus::Refunded);
    assert_eq!(inv.amount_refunded, INVOICE_AMOUNT);
    assert_eq!(INVOICE_AMOUNT + moved(&c.shade, &c.token, &c.payer), INVOICE_AMOUNT);
    assert_eq!(moved(&c.shade, &c.token, &c.merchant_account), 0);
}

#[test]
fn test_refund_fails_after_7_day_window() {
    let (mut c, id) = paid_invoice(1_000);
    let merchant = c.merchant;
    assert_eq!(c.shade.refund_invoice(&merchant, id, 1_000 + 691_200), Err(ContractError::RefundPeriodExpired));
}

#[test]
fn test_refund_at_exact_boundary_succeeds() {
    let (mut c, id) = paid_invoice(1_000);
    let merchant = c.merchant;
    c.shade.refund_invoice(&merchant, id, 1_000 + 604_800).unwrap();
    assert_eq!(c.shade.get_invoice(id).unwrap().status, InvoiceStatus::Refunded);
}

#[test]
fn test_refund_one_second_past_boundary_fails() {
    let (mut c, id) = paid_invoice(1_000);
    let merchant = c.merchant;
    let r = c.shade.refund_invoice(&merchant, id, 1_000 + 604_801);
    assert_eq!(r, Err(ContractError::RefundPeriodExpired));
    assert_eq!(c.shade.get_invoice(id).unwrap().status, InvoiceStatus::Paid);
}

#[test]
fn test_refund_unauthorized_random_address() {
    let (mut c, id) = paid_invoice(1_000);
    assert_eq!(c.shade.refund_invoice(&account(9), id, 1_000 + 3_600), Err(ContractError::NotAuthorized));
}

#[test]
fn test_refund_unauthorized_different_merchant() {
    let (mut c, id) = paid_invoice(1_000);
    let other = account(8);
    c.shade.register_merchant(&other, 0).unwrap();
    assert_eq!(c.shade.refund_invoice(&other, id, 1_000 + 3_600), Err(ContractError::NotAuthorized));
}

#[test]
fn test_refund_pending_invoice_fails() {
    let mut c = setup(0);
    let id = create(&mut c, 500);
    let merchant = c.merchant;
    assert_eq!(c.shade.refund_invoice(&merchant, id, 0), Err(ContractError::InvalidInvoiceStatus));
}

#[test]
fn test_refund_cancelled_invoice_fails() {
    let mut c = setup(0);
    let id = create(&mut c, 500);
    let merchant = c.merchant;
    c.shade.void_invoice(&merchant, id, 0).unwrap();
    assert_eq!(c.shade.refund_invoice(&merchant, id, 0), Err(ContractError::InvalidInvoiceStatus));
}

#[test]
fn test_double_refund_fails() {
    let (mut c, id) = paid_invoice(1_000);
    let merchant = c.merchant;
    c.shade.refund_invoice(&merchant, id, 1_000 + 3_600).unwrap();
    assert_eq!(c.shade.get_invoice(id).unwrap().status, InvoiceStatus::Refunded);
    let before = c.shade.transfers.len();
    let r = c.shade.refund_invoice(&merchant, id, 1_000 + 3_600);
    assert_eq!(r, Err(ContractError::InvalidInvoiceStatus));
    assert_eq!(r.unwrap_err().code(), 16);
    assert_eq!(c.shade.transfers.len(), before);
}

#[test]
fn test_refund_fund_movement_detailed() {
    let (mut c, id) = paid_invoice(1_000);
    let contract_addr = c.shade.contract;
    assert_eq!(INVOICE_AMOUNT + moved(&c.shade, &c.token, &c.payer), 0);
    assert_eq!(moved(&c.shade, &c.token, &c.merchant_account), INVOICE_AMOUNT);
    assert_eq!(moved(&c.shade, &c.token, &contract_addr), 0);
    let merchant = c.merchant;
    c.shade.refund_invoice(&merchant, id, 1_000 + 3_600).unwrap();
    assert_eq!(INVOICE_AMOUNT + moved(&c.shade, &c.token, &c.payer), INVOICE_AMOUNT);
    assert_eq!(moved(&c.shade, &c.token, &c.merchant_account), 0);
    assert_eq!(moved(&c.shade, &c.token, &contract_addr), 0);
}

#[test]
fn test_partial_refund_with_fee() {
    let mut c = setup(500);
    let amount = 1_000_i128;
    let id = create(&mut c, amount);
    let payer = c.payer;
    c.shade.pay_invoice(&payer, id, 1_000).unwrap();
    let fee = amount * 500 / 10_000;
    let merchant_portion = amount - fee;
    let contract_addr = c.shade.contract;
    assert_eq!(moved(&c.shade, &c.token, &c.merchant_account), merchant_portion);
    assert_eq!(moved(&c.shade, &c.token, &contract_addr), fee);
    c.shade.refund_invoice_partial(id, merchant_portion, 1_000 + 3_600).unwrap();
    let inv = c.shade.get_invoice(id).unwrap();
    assert_eq!(inv.status, InvoiceStatus::PartiallyRefunded);
    assert_eq!(inv.amount_refunded, merchant_portion);
    assert_eq!(amount + moved(&c.shade, &c.token, &payer), merchant_portion);
    assert_eq!(moved(&c.shade, &c.token, &c.merchant_account), 0);
    assert_eq!(moved(&c.shade, &c.token, &contract_addr), fee);
}

#[test]
fn test_invoice_state_validation() {
    let mut c = setup(100);
    let id = create(&mut c, 1000);
    let inv = c.shade.get_invoice(id).unwrap();
    assert_eq!(inv.status, InvoiceStatus::Pending);
    assert_eq!(inv.payer, None);
    assert_eq!(inv.date_paid, None);
}

#[test]
fn test_multiple_invoices_independent() {
    let mut c = setup(100);
    let id1 = create(&mut c, 1000);
    let id2 = create(&mut c, 2000);
    let payer = c.payer;
    c.shade.pay_invoice(&payer, id2, 0).unwrap();
    assert_eq!(c.shade.get_invoice(id1).unwrap().status, InvoiceStatus::Pending);
    assert_eq!(c.shade.get_invoice(id2).unwrap().status, InvoiceStatus::Paid);
}

#[test]
fn test_fee_preservation() {
    let mut c = setup(100);
    let (admin, token) = (c.admin, c.token);
    let fee = 250i128;
    c.shade.set_fee(&admin, &token, fee).unwrap();
    let id = create(&mut c, 1000);
    assert_eq!(c.shade.get_fee(&token), fee);
    assert_eq!(c.shade.get_invoice(id).unwrap().amount, 1000);
}

#[test]
fn test_contract_pause_and_unpause() {
    let mut c = setup(100);
    let admin = c.admin;
    c.shade.pause(&admin).unwrap();
    assert!(c.shade.is_paused());
    let (merchant, token) = (c.merchant, c.token);
    assert_eq!(c.shade.create_invoice(&merchant, "Post-unpause invoice".to_string(), 500, &token, None, 0), Err(ContractError::ContractPaused));
    c.shade.unpause(&admin).unwrap();
    assert!(!c.shade.is_paused());
    let id = c.shade.create_invoice(&merchant, "Post-unpause invoice".to_string(), 500, &token, None, 0).unwrap();
    assert!(id > 0);
}

#[test]
fn create_invoice_errors() {
    let mut c = setup(100);
    let (merchant, token) = (c.merchant, c.token);
    assert_eq!(c.shade.create_invoice(&merchant, "x".to_string(), 0, &token, None, 0), Err(ContractError::InvalidAmount));
    assert_eq!(c.shade.create_invoice(&account(9), "x".to_string(), 10, &token, None, 0), Err(ContractError::NotAuthorized));
    assert_eq!(c.shade.get_invoice(1).err(), Some(ContractError::InvoiceNotFound));
}

#[test]
fn amend_pending_invoice() {
    let mut c = setup(100);
    let id = create(&mut c, 1000);
    let merchant = c.merchant;
    c.shade.amend_invoice(&merchant, id, Some(1500), Some("Amended".to_string()), 3).unwrap();
    let inv = c.shade.get_invoice(id).unwrap();
    assert_eq!(inv.amount, 1500);
    assert_eq!(inv.description, "Amended");
    assert_eq!(c.shade.amend_invoice(&merchant, id, Some(0), None, 3), Err(ContractError::InvalidAmount));
    assert_eq!(c.shade.amend_invoice(&account(9), id, None, None, 3), Err(ContractError::NotAuthorized));
    c.shade.amend_invoice(&merchant, id, None, None, 4).unwrap();
    assert_eq!(c.shade.get_invoice(id).unwrap().amount, 1500);
    let payer = c.payer;
    c.shade.pay_invoice(&payer, id, 5).unwrap();
    assert_eq!(c.shade.amend_invoice(&merchant, id, Some(10), None, 6), Err(ContractError::InvalidInvoiceStatus));
}

#[test]
fn filter_invoices() {
    let mut c = setup(100);
    let id1 = create(&mut c, 1000);
    let _id2 = create(&mut c, 2000);
    let other = account(8);
    c.shade.register_merchant(&other, 0).unwrap();
    let token = c.token;
    let id3 = c.shade.create_invoice(&other, "o".to_string(), 3000, &token, None, 7).unwrap();
    let payer = c.payer;
    c.shade.pay_invoice(&payer, id1, 0).unwrap();
    let all = InvoiceFilter { status: None, merchant: None, min_amount: None, max_amount: None, start_date: None, end_date: None };
    assert_eq!(c.shade.get_invoices(&all).len(), 3);
    let paid = InvoiceFilter { status: Some(1), ..all };
    let r = c.shade.get_invoices(&paid);
    assert_eq!(r.len(), 1);
    assert_eq!(r[0].id, id1);
    let by_other = InvoiceFilter { merchant: Some(other), ..all };
    let r = c.shade.get_invoices(&by_other);
    assert_eq!(r.len(), 1);
    assert_eq!(r[0].id, id3);
    let unknown = InvoiceFilter { merchant: Some(account(99)), ..all };
    assert!(c.shade.get_invoices(&unknown).is_empty());
    let range = InvoiceFilter { min_amount: Some(1500), max_amount: Some(2500), ..all };
    assert_eq!(c.shade.get_invoices(&range).len(), 1);
    let late = InvoiceFilter { start_date: Some(5), end_date: Some(7), ..all };
    let r = c.shade.get_invoices(&late);
    assert_eq!(r.len(), 1);
    assert_eq!(r[0].description, "o");
}

#[test]
fn happy_path_scenario() {
    let mut c = setup(500);
    let id = create(&mut c, 1000);
    assert_eq!(id, 1);
    let payer = c.payer;
    c.shade.pay_invoice(&payer, id, 10).unwrap();
    let contract_addr = c.shade.contract;
    assert_eq!(moved(&c.shade, &c.token, &c.merchant_account), 950);
    assert_eq!(moved(&c.shade, &c.token, &contract_addr), 50);
    assert_eq!(moved(&c.shade, &c.token, &payer), -1000);
    let inv = c.shade.get_invoice(id).unwrap();
    assert_eq!(inv.status, InvoiceStatus::Paid);
    assert_eq!(inv.date_paid, Some(10));
}

#[test]
fn pay_then_refund_without_fee_restores_payer() {
    let (mut c, id) = paid_invoice(1_000);
    let merchant = c.merchant;
    c.shade.refund_invoice(&merchant, id, 1_000 + REFUND_WINDOW_SECS).unwrap();
    assert_eq!(moved(&c.shade, &c.token, &c.payer), 0);
    assert_eq!(moved(&c.shade, &c.token, &c.merchant_account), 0);
}

#[test]
fn void_is_idempotent_on_balances() {
    let mut c = setup(500);
    let id = create(&mut c, 1000);
    let merchant = c.merchant;
    c.shade.void_invoice(&merchant, id, 0).unwrap();
    let r = c.shade.void_invoice(&merchant, id, 0);
    assert_eq!(r.unwrap_err().code(), 16);
    assert!(c.shade.transfers.is_empty());
}

#[test]
fn partial_then_full_scenario() {
    let mut c = setup(500);
    let id = create(&mut c, 1000);
    let payer = c.payer;
    let contract_addr = c.shade.contract;
    c.shade.pay_invoice_partial(&payer, id, 500, 0).unwrap();
    let inv = c.shade.get_invoice(id).unwrap();
    assert_eq!((inv.status, inv.amount_paid), (InvoiceStatus::PartiallyPaid, 500));
    assert_eq!(moved(&c.shade, &c.token, &c.merchant_account), 475);
    assert_eq!(moved(&c.shade, &c.token, &contract_addr), 25);
    c.shade.pay_invoice_partial(&payer, id, 500, 0).unwrap();
    let inv = c.shade.get_invoice(id).unwrap();
    assert_eq!((inv.status, inv.amount_paid), (InvoiceStatus::Paid, 1000));
    assert_eq!(moved(&c.shade, &c.token, &c.merchant_account), 950);
    assert_eq!(moved(&c.shade, &c.token, &contract_addr), 50);
    assert_eq!(c.shade.pay_invoice_partial(&payer, id, 1, 0).unwrap_err().code(), 7);
}
