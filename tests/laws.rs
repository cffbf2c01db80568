use ed25519_dalek::{Signer, SigningKey};
use shade::errors::ContractError;
use shade::shade::Shade;
use shade::types::{Address, Event, InvoiceStatus, Role};

fn account(n: u8) -> Address {
    Address::account([n; 32])
}

fn contract(n: u8) -> Address {
    Address::contract([n; 32])
}

fn setup(fee: i128) -> (Shade, Address, Address, Address, Address) {
    let mut shade = Shade::new(contract(1));
    let admin = account(2);
    let token = contract(3);
    shade.initialize(&admin, 0).unwrap();
    shade.add_accepted_token(&admin, &token).unwrap();
    shade.set_fee(&admin, &token, fee).unwrap();
    let merchant = account(4);
    shade.register_merchant(&merchant, 0).unwrap();
    let escrow = contract(5);
    shade.set_merchant_account(&merchant, &escrow).unwrap();
    (shade, admin, token, merchant, escrow)
}

fn moved(s: &Shade, token: &Address, who: &Address) -> i128 {
    s.transfers
        .iter()
        .map(|t| {
            let mut d = 0;
            if t.token == *token && t.to == *who {
                d += t.amount;
            }
            if t.token == *token && t.from == *who {
                d -= t.amount;
            }
            d
        })
        .sum()
}

#[test]
fn amounts_stay_in_range_and_match_status() {
    let (mut s, _admin, token, merchant, _escrow) = setup(500);
    let id = s.create_invoice(&merchant, "r".to_string(), 1000, &token, None, 0).unwrap();
    let payer = account(6);
    let steps: [(i128, InvoiceStatus); 3] =
        [(400, InvoiceStatus::PartiallyPaid), (599, InvoiceStatus::PartiallyPaid), (1, InvoiceStatus::Paid)];
    for (amount, status) in steps {
        s.pay_invoice_partial(&payer, id, amount, 0).unwrap();
        let inv = s.get_invoice(id).unwrap();
        assert!(0 <= inv.amount_paid && inv.amount_paid <= inv.amount);
        assert_eq!(inv.status, status);
    }
    s.refund_invoice_partial(id, 100, 0).unwrap();
    let inv = s.get_invoice(id).unwrap();
    assert_eq!(inv.status, InvoiceStatus::PartiallyRefunded);
    assert!(0 < inv.amount_refunded && inv.amount_refunded < inv.amount && inv.amount_paid == inv.amount);
    s.refund_invoice_partial(id, 900, 0).unwrap();
    let inv = s.get_invoice(id).unwrap();
    assert_eq!(inv.status, InvoiceStatus::Refunded);
    assert_eq!(inv.amount_refunded, inv.amount);
}

#[test]
fn counters_only_grow() {
    let (mut s, _admin, token, merchant, _escrow) = setup(0);
    let mut last = 0;
    for _ in 0..3 {
        let id = s.create_invoice(&merchant, "c".to_string(), 10, &token, None, 0).unwrap();
        assert!(id > last);
        last = id;
    }
    s.void_invoice(&merchant, 2, 0).unwrap();
    assert_eq!(s.invoices.len(), 3);
    let id = s.create_invoice(&merchant, "c".to_string(), 10, &token, None, 0).unwrap();
    assert_eq!(id, 4);
    assert_eq!(s.register_merchant(&account(7), 0), Ok(2));
    let plan = s.create_plan(&merchant, "p".to_string(), 5, &token, 1, 0).unwrap();
    assert_eq!(plan, 1);
    assert_eq!(s.subscribe(&account(8), plan, 0), Ok(1));
    assert_eq!(s.subscribe(&account(9), plan, 0), Ok(2));
}

#[test]
fn merchant_address_maps_back_to_its_id() {
    let mut s = Shade::new(contract(1));
    s.initialize(&account(2), 0).unwrap();
    for n in 10..15u8 {
        s.register_merchant(&account(n), 0).unwrap();
    }
    for id in 1..=5u64 {
        let m = s.get_merchant(id).unwrap();
        assert_eq!(m.id, id);
        let mine = s.get_merchants(shade::types::MerchantFilter { is_active: None, is_verified: None });
        assert_eq!(mine.iter().filter(|x| x.address == m.address).count(), 1);
    }
}

#[test]
fn used_nonce_stays_used() {
    let (mut s, admin, token, merchant, _escrow) = setup(0);
    let key = SigningKey::from_bytes(&[5u8; 32]);
    s.set_merchant_key(&merchant, key.verifying_key().to_bytes()).unwrap();
    let nonce = [9u8; 32];
    let msg = shade::signature::build_message(&s.contract, &merchant, "n", 10, &token, &nonce);
    let sig = key.sign(&msg).to_bytes();
    s.create_invoice_signed(&admin, &merchant, "n".to_string(), 10, &token, &nonce, &sig, 0).unwrap();
    s.pay_invoice(&account(6), 1, 0).unwrap();
    s.set_merchant_key(&merchant, [1u8; 32]).unwrap();
    s.set_merchant_key(&merchant, key.verifying_key().to_bytes()).unwrap();
    let r = s.create_invoice_signed(&admin, &merchant, "n".to_string(), 10, &token, &nonce, &sig, 0);
    assert_eq!(r, Err(ContractError::NonceAlreadyUsed));
    assert_eq!(s.used_nonces.len(), 1);
}

#[test]
fn reported_fees_sum_to_contract_income() {
    let (mut s, _admin, token, merchant, _escrow) = setup(333);
    let id = s.create_invoice(&merchant, "f".to_string(), 10_000, &token, None, 0).unwrap();
    let payer = account(6);
    for amount in [1_234, 4_321, 4_445] {
        s.pay_invoice_partial(&payer, id, amount, 0).unwrap();
    }
    let reported: i128 = s
        .events
        .iter()
        .map(|e| match e {
            Event::InvoicePaid { invoice_id, fee, .. } if *invoice_id == id => *fee,
            _ => 0,
        })
        .sum();
    assert_eq!(reported, 41 + 143 + 148);
    assert_eq!(moved(&s, &token, &s.contract), reported);
}

#[test]
fn pay_then_refund_returns_the_net_amount() {
    let (mut s, _admin, token, merchant, escrow) = setup(500);
    let id = s.create_invoice(&merchant, "x".to_string(), 1000, &token, None, 0).unwrap();
    let payer = account(6);
    s.pay_invoice(&payer, id, 0).unwrap();
    s.refund_invoice(&merchant, id, 7).unwrap();
    assert_eq!(moved(&s, &token, &payer), -50);
    assert_eq!(moved(&s, &token, &escrow), 0);
    assert_eq!(moved(&s, &token, &s.contract), 50);
    assert_eq!(s.get_invoice(id).unwrap().status, InvoiceStatus::Refunded);
}

#[test]
fn refund_window_scenario_with_fee() {
    let (mut s, _admin, token, merchant, escrow) = setup(500);
    let id = s.create_invoice(&merchant, "w".to_string(), 1000, &token, None, 0).unwrap();
    let payer = account(6);
    let t0 = 5_000;
    s.pay_invoice(&payer, id, t0).unwrap();
    assert_eq!(s.refund_invoice(&merchant, id, t0 + 604_801), Err(ContractError::RefundPeriodExpired));
    s.refund_invoice(&merchant, id, t0 + 604_800).unwrap();
    let inv = s.get_invoice(id).unwrap();
    assert_eq!(inv.status, InvoiceStatus::Refunded);
    assert_eq!(inv.amount_refunded, 1000);
    assert_eq!(1000 + moved(&s, &token, &payer), 950);
    assert_eq!(moved(&s, &token, &escrow), 0);
    match s.events.last().unwrap() {
        Event::InvoiceRefunded { invoice_id, amount, .. } => assert_eq!((*invoice_id, *amount), (id, 950)),
        other => panic!("unexpected event {:?}", other),
    }
}

#[test]
fn full_refund_after_partial_returns_what_the_escrow_holds() {
    let (mut s, _admin, token, merchant, escrow) = setup(500);
    let id = s.create_invoice(&merchant, "p".to_string(), 1000, &token, None, 0).unwrap();
    let payer = account(6);
    s.pay_invoice_partial(&payer, id, 400, 0).unwrap();
    s.pay_invoice_partial(&payer, id, 600, 0).unwrap();
    assert_eq!(s.get_invoice(id).unwrap().fees_paid, 50);
    s.refund_invoice_partial(id, 300, 1).unwrap();
    s.refund_invoice(&merchant, id, 2).unwrap();
    assert_eq!(moved(&s, &token, &payer), -50);
    assert_eq!(moved(&s, &token, &escrow), 0);
    assert_eq!(s.transfers.last().unwrap().amount, 650);
}

#[test]
fn full_refund_when_the_escrow_holds_nothing_moves_nothing() {
    let (mut s, admin, token, merchant, _escrow) = setup(10_000);
    let id = s.create_invoice(&merchant, "z".to_string(), 1000, &token, None, 0).unwrap();
    s.pay_invoice(&account(6), id, 0).unwrap();
    let before = s.transfers.len();
    s.refund_invoice(&merchant, id, 1).unwrap();
    assert_eq!(s.transfers.len(), before);
    assert_eq!(s.get_invoice(id).unwrap().status, InvoiceStatus::Refunded);
    let _ = admin;
}

#[test]
fn nonces_are_consumed_once_per_merchant() {
    let (mut s, ..) = setup(0);
    let (m1, m2) = (account(4), account(5));
    let nonce = [3u8; 32];
    s.invalidate_nonce(&m1, &nonce, 1).unwrap();
    let r = s.invalidate_nonce(&m1, &nonce, 2);
    assert_eq!(r, Err(ContractError::NonceAlreadyUsed));
    assert_eq!(r.unwrap_err().code(), 14);
    s.invalidate_nonce(&m2, &nonce, 3).unwrap();
    assert_eq!(s.used_nonces.len(), 2);
    match s.events.last().unwrap() {
        Event::NonceInvalidated { merchant, nonce: n, timestamp } => assert_eq!((*merchant, *n, *timestamp), (m2, nonce, 3)),
        other => panic!("unexpected event {:?}", other),
    }
}

#[test]
fn grant_then_revoke_scenario() {
    let (mut s, admin, ..) = setup(0);
    let user = account(6);
    for role in [Role::Manager, Role::Operator, Role::Admin] {
        let before = s.has_role(&user, role);
        s.grant_role(&admin, &user, role).unwrap();
        s.revoke_role(&admin, &user, role).unwrap();
        assert_eq!(s.has_role(&user, role), before);
    }
}

#[test]
fn void_twice_scenario() {
    let (mut s, _admin, token, merchant, _escrow) = setup(0);
    let id = s.create_invoice(&merchant, "v".to_string(), 10, &token, None, 0).unwrap();
    s.void_invoice(&merchant, id, 0).unwrap();
    assert!(s.transfers.is_empty());
    assert_eq!(s.void_invoice(&merchant, id, 0).unwrap_err().code(), 16);
    assert!(s.transfers.is_empty());
}
