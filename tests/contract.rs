use ticket_payment::contract::TicketPaymentContract;
use ticket_payment::payment::PaymentRequest;
use ticket_payment::table::Table;
use ticket_payment::types::{
    EventBalance, EventInfo, Milestone, Payment, PaymentStatus, TicketPaymentError, TicketTier,
};

const CONTRACT: &str = "CONTRACT";
const ADMIN: &str = "ADMIN";
const USDC: &str = "USDC";
const WALLET: &str = "WALLET";
const REGISTRY: &str = "REGISTRY";
const ORGANIZER: &str = "ORGANIZER";

fn s(v: &str) -> String {
    v.to_string()
}

fn setup_test() -> TicketPaymentContract {
    let mut c = TicketPaymentContract::new(s(CONTRACT), vec![1, 2, 3]);
    c.initialize(s(ADMIN), s(USDC), s(WALLET), s(REGISTRY)).unwrap();
    c
}

fn tier(name: &str, refundable: bool) -> TicketTier {
    TicketTier {
        name: s(name),
        price: 100,
        tier_limit: 1000,
        current_sold: 0,
        is_refundable: refundable,
    }
}

fn event(bps: u32, active: bool, sold: i128, plan: Option<Vec<Milestone>>) -> EventInfo {
    let mut tiers = Table::new();
    tiers.insert(s("tier_1"), tier("General", false));
    tiers.insert(s("t1"), tier("Flexible", true));
    EventInfo {
        event_id: s("event_1"),
        organizer_address: s(ORGANIZER),
        payment_address: s(CONTRACT),
        platform_fee_percent: bps,
        is_active: active,
        created_at: 1,
        metadata_cid: s("cid"),
        max_supply: 10000,
        current_supply: sold,
        milestone_plan: plan,
        tiers,
    }
}

fn request(id: &str, event_id: &str, tier_id: &str, buyer: &str, amount: i128, quantity: u32) -> PaymentRequest {
    PaymentRequest {
        payment_id: s(id),
        event_id: s(event_id),
        ticket_tier_id: s(tier_id),
        buyer_address: s(buyer),
        token_address: s(USDC),
        amount,
        quantity,
    }
}

/// Pays for `req` with an allowance and a transfer that match its total.
fn pay(c: &mut TicketPaymentContract, req: &PaymentRequest, ev: &EventInfo, now: u64) -> Result<i128, TicketPaymentError> {
    let total = req.amount * req.quantity as i128;
    c.process_payment(req, Some(ev), total, 0, total, now).map(|e| e.amount)
}

#[test]
fn test_process_payment_success() {
    let mut c = setup_test();
    let ev = event(500, true, 0, None);
    let amount = 1000_0000000i128;
    let payment_id = s("pay_1");
    let req = request("pay_1", "event_1", "tier_1", "BUYER", amount, 1);
    let result = c.process_payment(&req, Some(&ev), amount, 0, amount, 10).unwrap();
    assert_eq!(result.payment_id, payment_id);

    let expected_fee = (amount * 500) / 10000;
    assert_eq!(result.platform_fee, expected_fee);
    assert_eq!(result.amount, amount);
    let paid = c.withdraw_platform_fees(&s("event_1"), &s(ADMIN)).unwrap();
    assert_eq!(paid, expected_fee);

    let payment = c.get_payment_status(&payment_id).unwrap();
    assert_eq!(payment.amount, amount);
    assert_eq!(payment.platform_fee, expected_fee);
    assert_eq!(payment.status, PaymentStatus::Pending);
}

#[test]
fn test_confirm_payment() {
    let mut c = setup_test();
    let ev = event(500, true, 0, None);
    let payment_id = s("pay_1");
    let tx_hash = s("tx_hash_123");
    let req = request("pay_1", "e1", "t1", "BUYER", 100, 1);
    c.process_payment(&req, Some(&ev), 100, 0, 100, 100).unwrap();
    let stored = c.get_payment_status(&payment_id).unwrap();
    assert_eq!(stored.platform_fee, 5);
    assert_eq!(stored.organizer_amount, 95);

    c.confirm_payment(&payment_id, &tx_hash, 200);

    let updated = c.get_payment_status(&payment_id).unwrap();
    assert_eq!(updated.status, PaymentStatus::Confirmed);
    assert_eq!(updated.transaction_hash, tx_hash);
    assert!(updated.confirmed_at.is_some());
}

#[test]
fn test_fee_calculation_variants() {
    let mut c = setup_test();
    let ev = event(250, true, 0, None);
    let req = request("p1", "e1", "t1", "BUYER", 10000, 1);
    c.process_payment(&req, Some(&ev), 10000, 0, 10000, 1).unwrap();

    let payment = c.get_payment_status(&s("p1")).unwrap();
    assert_eq!(payment.platform_fee, 250);
    assert_eq!(payment.organizer_amount, 9750);
}

#[test]
fn fee_and_organizer_share_add_up_to_total() {
    let mut c = setup_test();
    let ev = event(333, true, 0, None);
    let req = request("p1", "event_1", "tier_1", "BUYER", 7, 3);
    let r = c.process_payment(&req, Some(&ev), 21, 0, 21, 1).unwrap();
    assert_eq!(r.amount, 21);
    assert_eq!(r.platform_fee, 0);
    let b = c.get_event_escrow_balance(&s("event_1"));
    assert_eq!(b.platform_fee + b.organizer_amount, 21);
    let r = c.process_payment(&request("p2", "event_1", "tier_1", "BUYER", 1001, 10), Some(&ev), 10010, 5, 10015, 1).unwrap();
    assert_eq!(r.platform_fee, 333);
    let b = c.get_event_escrow_balance(&s("event_1"));
    assert_eq!(b, EventBalance { organizer_amount: 21 + 10010 - 333, platform_fee: 333, total_withdrawn: 0 });
}

#[test]
fn batch_purchase_records_one_ticket_each() {
    let mut c = setup_test();
    let ev = event(1000, true, 0, None);
    let req = request("pay", "event_1", "tier_1", "BUYER", 10, 3);
    pay(&mut c, &req, &ev, 5).unwrap();
    assert!(c.get_payment_status(&s("pay")).is_none());
    for id in ["pay-0", "pay-1", "pay-2"] {
        let p: Payment = c.get_payment_status(&s(id)).unwrap();
        assert_eq!(p.payment_id, s(id));
        assert_eq!(p.amount, 10);
        assert_eq!(p.platform_fee, 1);
        assert_eq!(p.organizer_amount, 9);
        assert_eq!(p.created_at, 5);
        assert_eq!(p.confirmed_at, None);
    }
    assert_eq!(c.get_buyer_payments(&s("BUYER")), vec![s("pay-0"), s("pay-1"), s("pay-2")]);
}

#[test]
fn payment_errors_in_order() {
    let mut c = setup_test();
    let ev = event(500, true, 0, None);
    let mut other = request("p", "event_1", "tier_1", "BUYER", 10, 1);
    other.token_address = s("OTHER");
    assert_eq!(pay(&mut c, &other, &ev, 1), Err(TicketPaymentError::TokenNotWhitelisted));
    let huge = request("p", "event_1", "tier_1", "BUYER", i128::MAX, 2);
    assert_eq!(c.process_payment(&huge, Some(&ev), 0, 0, 0, 1).map(|_| 0), Err(TicketPaymentError::ArithmeticError));
    let req = request("p", "event_1", "tier_1", "BUYER", 10, 2);
    assert_eq!(c.process_payment(&req, None, 20, 0, 20, 1).map(|_| 0), Err(TicketPaymentError::EventNotFound));
    let inactive = event(500, false, 0, None);
    assert_eq!(pay(&mut c, &req, &inactive, 1), Err(TicketPaymentError::EventInactive));
    assert_eq!(c.process_payment(&req, Some(&ev), 19, 0, 20, 1).map(|_| 0), Err(TicketPaymentError::InsufficientAllowance));
    assert_eq!(c.process_payment(&req, Some(&ev), 20, 0, 19, 1).map(|_| 0), Err(TicketPaymentError::TransferVerificationFailed));
    let over = event(10001, true, 0, None);
    assert_eq!(pay(&mut c, &req, &over, 1), Err(TicketPaymentError::ArithmeticError));
    assert!(c.get_payment_status(&s("p")).is_none());
    assert_eq!(c.get_event_escrow_balance(&s("event_1")), EventBalance { organizer_amount: 0, platform_fee: 0, total_withdrawn: 0 });
}

#[test]
fn initialize_once_and_not_to_itself() {
    let mut c = TicketPaymentContract::new(s(CONTRACT), vec![]);
    assert_eq!(c.initialize(s(ADMIN), s(USDC), s(CONTRACT), s(REGISTRY)).map(|_| ()), Err(TicketPaymentError::InvalidAddress));
    assert!(!c.is_token_allowed(&s(USDC)));
    let ev = c.initialize(s(ADMIN), s(USDC), s(WALLET), s(REGISTRY)).unwrap();
    assert_eq!(ev.usdc_token, s(USDC));
    assert!(c.is_token_allowed(&s(USDC)));
    assert_eq!(c.initialize(s(ADMIN), s(USDC), s(WALLET), s(REGISTRY)).map(|_| ()), Err(TicketPaymentError::AlreadyInitialized));
}

#[test]
fn whitelist_is_admin_only() {
    let mut c = setup_test();
    assert_eq!(c.add_token(&s("MALLORY"), s("XLM")), Err(TicketPaymentError::Unauthorized));
    assert!(!c.is_token_allowed(&s("XLM")));
    c.add_token(&s(ADMIN), s("XLM")).unwrap();
    assert!(c.is_token_allowed(&s("XLM")));
    c.remove_token(&s(ADMIN), s("XLM")).unwrap();
    assert!(!c.is_token_allowed(&s("XLM")));
    assert!(c.is_token_allowed(&s(USDC)));
}

#[test]
fn upgrade_records_new_code() {
    let mut c = setup_test();
    assert_eq!(c.upgrade(&s("MALLORY"), vec![9]).map(|_| ()), Err(TicketPaymentError::Unauthorized));
    let up = c.upgrade(&s(ADMIN), vec![9, 9]).unwrap();
    assert_eq!(up.old_wasm_hash, vec![1, 2, 3]);
    assert_eq!(up.new_wasm_hash, vec![9, 9]);
}

fn plan() -> Option<Vec<Milestone>> {
    Some(vec![
        Milestone { sales_threshold: 100, release_percent: 2000 },
        Milestone { sales_threshold: 500, release_percent: 5000 },
        Milestone { sales_threshold: 1000, release_percent: 10000 },
    ])
}

/// An event whose organizer is owed 1000 in all.
fn funded() -> TicketPaymentContract {
    let mut c = setup_test();
    let ev = event(0, true, 0, None);
    pay(&mut c, &request("p1", "event_1", "tier_1", "BUYER", 1000, 1), &ev, 1).unwrap();
    c
}

#[test]
fn milestones_gate_withdrawal() {
    let mut c = funded();
    let e = s("event_1");
    let org = s(ORGANIZER);
    assert_eq!(c.withdraw_organizer_funds(&e, &org, Some(&event(0, true, 99, plan()))), Ok(0));
    let at_100 = c.withdraw_organizer_funds(&e, &org, Some(&event(0, true, 100, plan()))).unwrap();
    assert!(at_100 <= 200);
    assert_eq!(at_100, 200);
    let rest = c.withdraw_organizer_funds(&e, &org, Some(&event(0, true, 1000, plan()))).unwrap();
    assert_eq!(rest, 800);
    let b = c.get_event_escrow_balance(&e);
    assert_eq!(b.organizer_amount, 0);
    assert_eq!(b.total_withdrawn, 1000);
}

#[test]
fn full_balance_at_last_milestone() {
    let mut c = funded();
    let got = c.withdraw_organizer_funds(&s("event_1"), &s(ORGANIZER), Some(&event(0, true, 1000, plan()))).unwrap();
    assert_eq!(got, 1000);
}

#[test]
fn repeated_withdrawal_pays_nothing() {
    let mut c = funded();
    let e = s("event_1");
    let ev = event(0, true, 500, plan());
    assert_eq!(c.withdraw_organizer_funds(&e, &s(ORGANIZER), Some(&ev)), Ok(500));
    let before = c.get_event_escrow_balance(&e);
    assert_eq!(c.withdraw_organizer_funds(&e, &s(ORGANIZER), Some(&ev)), Ok(0));
    let after = c.get_event_escrow_balance(&e);
    assert_eq!(before, after);
    assert!(after.total_withdrawn >= before.total_withdrawn);
}

#[test]
fn escrow_is_conserved() {
    let mut c = funded();
    let e = s("event_1");
    let ev = event(1000, true, 500, plan());
    pay(&mut c, &request("p2", "event_1", "tier_1", "BUYER", 300, 2), &ev, 2).unwrap();
    // 1000 + 540 owed to the organizer in all
    c.withdraw_organizer_funds(&e, &s(ORGANIZER), Some(&ev)).unwrap();
    c.withdraw_platform_fees(&e, &s(ADMIN)).unwrap();
    let b = c.get_event_escrow_balance(&e);
    assert_eq!(b.organizer_amount + b.total_withdrawn, 1540);
    assert_eq!(b.total_withdrawn, 770);
    assert_eq!(b.platform_fee, 0);
}

#[test]
fn withdrawal_errors() {
    let mut c = funded();
    let e = s("event_1");
    assert_eq!(c.withdraw_organizer_funds(&e, &s(ORGANIZER), None), Err(TicketPaymentError::EventNotFound));
    assert_eq!(c.withdraw_organizer_funds(&e, &s("MALLORY"), Some(&event(0, true, 0, None))), Err(TicketPaymentError::Unauthorized));
    assert_eq!(c.withdraw_platform_fees(&e, &s("MALLORY")), Err(TicketPaymentError::Unauthorized));
    let mut fresh = TicketPaymentContract::new(s(CONTRACT), vec![]);
    assert_eq!(fresh.withdraw_platform_fees(&e, &s(ADMIN)), Err(TicketPaymentError::NotInitialized));
}

#[test]
fn confirm_twice_keeps_confirmed() {
    let mut c = funded();
    let id = s("p1");
    let tx = s("tx");
    let first = c.confirm_payment(&id, &tx, 10);
    let once = c.get_payment_status(&id).unwrap();
    let second = c.confirm_payment(&id, &tx, 20);
    let twice = c.get_payment_status(&id).unwrap();
    assert_eq!(twice.status, PaymentStatus::Confirmed);
    assert_eq!(once.confirmed_at, Some(10));
    assert_eq!(twice.confirmed_at, Some(20));
    assert_eq!(twice.transaction_hash, once.transaction_hash);
    assert_eq!(first.old_status, second.old_status);
    assert_eq!(first.new_status, second.new_status);
    assert_eq!(first.transaction_hash, second.transaction_hash);
    assert_eq!(second.timestamp, 20);
}

#[test]
fn transfer_moves_ticket_and_charges_fee() {
    let mut c = setup_test();
    let e = s("event_1");
    let ev = event(500, true, 0, None);
    pay(&mut c, &request("p1", "event_1", "t1", "A", 100, 1), &ev, 1).unwrap();
    c.confirm_payment(&s("p1"), &s("tx"), 2);
    c.set_transfer_fee(&e, &s(ORGANIZER), Some(&ev), 10).unwrap();
    let before = c.get_event_escrow_balance(&e);
    let t = c.transfer_ticket(&s("p1"), &s("A"), s("B"), 3).unwrap();
    assert_eq!(t.from, s("A"));
    assert_eq!(t.to, s("B"));
    assert_eq!(t.transfer_fee, 10);
    let after = c.get_event_escrow_balance(&e);
    assert_eq!(after.organizer_amount, before.organizer_amount + 10);
    assert_eq!(after.platform_fee, before.platform_fee);
    assert_eq!(c.get_payment_status(&s("p1")).unwrap().buyer_address, s("B"));
    assert!(!c.get_buyer_payments(&s("A")).contains(&s("p1")));
    assert!(c.get_buyer_payments(&s("B")).contains(&s("p1")));
}

#[test]
fn transfer_errors() {
    let mut c = setup_test();
    let ev = event(500, true, 0, None);
    pay(&mut c, &request("p1", "event_1", "t1", "A", 100, 1), &ev, 1).unwrap();
    assert_eq!(c.transfer_ticket(&s("nope"), &s("A"), s("B"), 3).map(|_| ()), Err(TicketPaymentError::PaymentNotFound));
    assert_eq!(c.transfer_ticket(&s("p1"), &s("A"), s("B"), 3).map(|_| ()), Err(TicketPaymentError::InvalidPaymentStatus));
    c.confirm_payment(&s("p1"), &s("tx"), 2);
    assert_eq!(c.transfer_ticket(&s("p1"), &s("B"), s("C"), 3).map(|_| ()), Err(TicketPaymentError::Unauthorized));
    assert_eq!(c.transfer_ticket(&s("p1"), &s("A"), s("A"), 3).map(|_| ()), Err(TicketPaymentError::InvalidAddress));
    assert_eq!(c.set_transfer_fee(&s("event_1"), &s("MALLORY"), Some(&ev), 5), Err(TicketPaymentError::Unauthorized));
    assert_eq!(c.set_transfer_fee(&s("event_1"), &s(ORGANIZER), None, 5), Err(TicketPaymentError::EventNotFound));
    assert_eq!(c.get_transfer_fee(&s("event_1")), 0);
    let t = c.transfer_ticket(&s("p1"), &s("A"), s("B"), 3).unwrap();
    assert_eq!(t.transfer_fee, 0);
}

#[test]
fn refund_needs_refundable_tier_or_cancelled_event() {
    let mut c = setup_test();
    let active = event(500, true, 0, None);
    pay(&mut c, &request("p1", "event_1", "tier_1", "A", 100, 1), &active, 1).unwrap();
    assert_eq!(c.request_guest_refund(&s("p1"), &s("A"), Some(&active), 2).map(|_| ()), Err(TicketPaymentError::TicketNotRefundable));
    assert_eq!(c.get_payment_status(&s("p1")).unwrap().status, PaymentStatus::Pending);

    let cancelled = event(500, false, 0, None);
    let ev = c.request_guest_refund(&s("p1"), &s("A"), Some(&cancelled), 3).unwrap();
    assert_eq!(ev.old_status, PaymentStatus::Pending);
    assert_eq!(ev.new_status, PaymentStatus::Refunded);
    assert_eq!(ev.transaction_hash, s("refund"));
    let p = c.get_payment_status(&s("p1")).unwrap();
    assert_eq!(p.status, PaymentStatus::Refunded);
    assert_eq!(p.confirmed_at, Some(3));
    // the ticket to return to inventory
    assert_eq!(p.event_id, s("event_1"));
    assert_eq!(p.ticket_tier_id, s("tier_1"));
    assert_eq!(c.request_guest_refund(&s("p1"), &s("A"), Some(&cancelled), 4).map(|_| ()), Err(TicketPaymentError::InvalidPaymentStatus));
}

#[test]
fn refund_errors() {
    let mut c = setup_test();
    let ev = event(500, true, 0, None);
    pay(&mut c, &request("p1", "event_1", "t1", "A", 100, 1), &ev, 1).unwrap();
    pay(&mut c, &request("p2", "event_1", "vip", "A", 100, 1), &ev, 1).unwrap();
    assert_eq!(c.request_guest_refund(&s("nope"), &s("A"), Some(&ev), 2).map(|_| ()), Err(TicketPaymentError::PaymentNotFound));
    assert_eq!(c.request_guest_refund(&s("p1"), &s("B"), Some(&ev), 2).map(|_| ()), Err(TicketPaymentError::Unauthorized));
    assert_eq!(c.request_guest_refund(&s("p1"), &s("A"), None, 2).map(|_| ()), Err(TicketPaymentError::EventNotFound));
    assert_eq!(c.request_guest_refund(&s("p2"), &s("A"), Some(&ev), 2).map(|_| ()), Err(TicketPaymentError::TierNotFound));
    assert!(c.request_guest_refund(&s("p1"), &s("A"), Some(&ev), 2).is_ok());
}

#[test]
fn refunded_payment_cannot_be_confirmed_again() {
    let mut c = setup_test();
    let ev = event(500, true, 0, None);
    pay(&mut c, &request("p1", "event_1", "t1", "A", 100, 1), &ev, 1).unwrap();
    c.request_guest_refund(&s("p1"), &s("A"), Some(&ev), 2).unwrap();
    c.confirm_payment(&s("p1"), &s("tx"), 3);
    let p = c.get_payment_status(&s("p1")).unwrap();
    assert_eq!(p.status, PaymentStatus::Refunded);
    assert_eq!(p.transaction_hash, String::new());
    assert_eq!(p.confirmed_at, Some(2));
    assert_eq!(c.transfer_ticket(&s("p1"), &s("A"), s("B"), 4).map(|_| ()), Err(TicketPaymentError::InvalidPaymentStatus));
}

#[test]
fn reused_ticket_identifier_is_rejected() {
    let mut c = setup_test();
    let ev = event(500, true, 0, None);
    pay(&mut c, &request("p1", "event_1", "t1", "A", 100, 1), &ev, 1).unwrap();
    pay(&mut c, &request("batch", "event_1", "t1", "A", 100, 2), &ev, 1).unwrap();
    let before = c.get_event_escrow_balance(&s("event_1"));
    assert_eq!(pay(&mut c, &request("p1", "event_1", "t1", "B", 100, 1), &ev, 2), Err(TicketPaymentError::PaymentAlreadyExists));
    assert_eq!(pay(&mut c, &request("batch", "event_1", "t1", "B", 100, 3), &ev, 2), Err(TicketPaymentError::PaymentAlreadyExists));
    assert_eq!(c.get_payment_status(&s("p1")).unwrap().buyer_address, s("A"));
    assert_eq!(c.get_event_escrow_balance(&s("event_1")), before);
    assert!(c.get_buyer_payments(&s("B")).is_empty());
    pay(&mut c, &request("batch", "event_1", "t1", "B", 100, 1), &ev, 2).unwrap();
    assert_eq!(c.get_buyer_payments(&s("B")), vec![s("batch")]);
}

#[test]
fn highest_met_milestone_governs_in_any_order() {
    let mut c = funded();
    let unordered = Some(vec![
        Milestone { sales_threshold: 500, release_percent: 5000 },
        Milestone { sales_threshold: 100, release_percent: 2000 },
        Milestone { sales_threshold: 900, release_percent: 9000 },
    ]);
    let got = c.withdraw_organizer_funds(&s("event_1"), &s(ORGANIZER), Some(&event(0, true, 600, unordered))).unwrap();
    assert_eq!(got, 500);
}
