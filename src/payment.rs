use vstd::prelude::*;

use crate::escrow::BPS_DENOMINATOR;
use crate::types::{EventInfo, TicketPaymentError};

verus! {

/// A buyer's request to purchase `quantity` tickets at `amount` each.
pub struct PaymentRequest {
    pub payment_id: String,
    pub event_id: String,
    pub ticket_tier_id: String,
    pub buyer_address: String,
    pub token_address: String,
    pub amount: i128,
    pub quantity: u32,
}

/// How a purchase's total splits between the platform and the organizer.
#[derive(Clone, Copy, Debug, PartialEq, Eq, Structural)]
pub struct PaymentQuote {
    pub total_amount: i128,
    pub platform_fee: i128,
    pub organizer_amount: i128,
}

/// The platform's fee on `total` at `bps` basis points, rounded down.
pub open spec fn fee_of(total: int, bps: int) -> int {
    total * bps / (BPS_DENOMINATOR as int)
}

/// The split of `total` at `bps` basis points.
pub open spec fn quote_of(total: int, bps: int) -> PaymentQuote {
    PaymentQuote {
        total_amount: total as i128,
        platform_fee: fee_of(total, bps) as i128,
        organizer_amount: (total - fee_of(total, bps)) as i128,
    }
}

/// The digit `d` as a character.
pub open spec fn digit_char(d: nat) -> char {
    seq!['0', '1', '2', '3', '4', '5', '6', '7', '8', '9'][d as int]
}

/// `n` written in decimal.
pub open spec fn decimal(n: nat) -> Seq<char>
    decreases n,
{
    if n < 10 {
        seq![digit_char(n)]
    } else {
        decimal(n / 10).push(digit_char(n % 10))
    }
}

/// The identifier of ticket `index` of a batch bought under `base`.
pub open spec fn batch_ticket_id(base: Seq<char>, index: nat) -> Seq<char> {
    base + seq!['-'] + decimal(index)
}

/// The identifier of ticket `index` of a purchase of `quantity` tickets: the
/// purchase's own identifier for a single ticket.
pub open spec fn ticket_id_of(base: Seq<char>, index: nat, quantity: nat) -> Seq<char> {
    if quantity == 1 {
        base
    } else {
        batch_ticket_id(base, index)
    }
}

/// Relies on `ToString` of std for `u32`, which writes it in decimal.
#[verifier::external_body]
fn decimal_string(n: u32) -> (r: String)
    ensures
        r@ == decimal(n as nat),
{
    n.to_string()
}

/// The identifier of ticket `index` of a batch bought under `base`.
fn batch_ticket_name(base: &String, index: u32) -> (r: String)
    ensures
        r@ == batch_ticket_id(base@, index as nat),
{
    let digits = decimal_string(index);
    let r = base.clone().concat("-").concat(digits.as_str());
    proof {
        reveal_strlit("-");
        assert(r@ =~= batch_ticket_id(base@, index as nat));
    }
    r
}

/// The identifier under which ticket `index` of a purchase is recorded.
pub fn ticket_id(base: &String, index: u32, quantity: u32) -> (r: String)
    ensures
        r@ == ticket_id_of(base@, index as nat, quantity as nat),
{
    if quantity == 1 {
        base.clone()
    } else {
        batch_ticket_name(base, index)
    }
}

/// The price of `quantity` tickets at `amount` each; `ArithmeticError` when
/// it does not fit an `i128`.
pub fn total_price(amount: i128, quantity: u32) -> (r: Result<i128, TicketPaymentError>)
    requires
        amount > 0,
        quantity > 0,
    ensures
        amount * quantity <= i128::MAX ==> r == Ok::<i128, TicketPaymentError>(
            (amount * quantity) as i128,
        ),
        amount * quantity > i128::MAX ==> r == Err::<i128, TicketPaymentError>(
            TicketPaymentError::ArithmeticError,
        ),
        r matches Ok(t) ==> t > 0,
{
    proof {
        assert(amount * quantity > 0) by (nonlinear_arith)
            requires
                amount > 0,
                quantity > 0,
        ;
    }
    match amount.checked_mul(quantity as i128) {
        Some(t) => Ok(t),
        None => Err(TicketPaymentError::ArithmeticError),
    }
}

/// Splits `total` by the platform fee at `bps` basis points: the fee is taken
/// on the whole total and rounded down, the organizer gets the rest.
/// `ArithmeticError` when the product overflows or the fee exceeds the total.
pub fn split_total(total: i128, bps: u32) -> (r: Result<PaymentQuote, TicketPaymentError>)
    requires
        total > 0,
    ensures
        r == split_total_spec(total, bps),
        r matches Ok(q) ==> q.platform_fee + q.organizer_amount == q.total_amount && q.total_amount
            == total && 0 <= q.platform_fee <= total && 0 <= q.organizer_amount <= total,
{
    if bps as i128 > BPS_DENOMINATOR {
        return Err(TicketPaymentError::ArithmeticError);
    }
    match total.checked_mul(bps as i128) {
        Some(p) => {
            let fee = p / BPS_DENOMINATOR;
            proof {
                assert(total * bps <= total * 10000) by (nonlinear_arith)
                    requires
                        total > 0,
                        bps <= 10000,
                ;
                assert(0 <= fee_of(total as int, bps as int) <= total) by (nonlinear_arith)
                    requires
                        total > 0,
                        bps <= 10000,
                        total * bps <= total * 10000,
                        fee_of(total as int, bps as int) == total * bps / 10000,
                ;
            }
            Ok(PaymentQuote { total_amount: total, platform_fee: fee, organizer_amount: total - fee })
        },
        None => Err(TicketPaymentError::ArithmeticError),
    }
}

/// Checks the registry's answer for a purchase of `total`: the event must exist
/// and be active, and its fee must split the total.
pub fn quote_payment(total: i128, event: Option<&EventInfo>) -> (r: Result<
    PaymentQuote,
    TicketPaymentError,
>)
    requires
        total > 0,
    ensures
        r == quote_spec(total, event),
        r matches Ok(q) ==> q.platform_fee + q.organizer_amount == q.total_amount && q.total_amount
            == total && 0 <= q.platform_fee <= total && 0 <= q.organizer_amount <= total,
{
    match event {
        None => Err(TicketPaymentError::EventNotFound),
        Some(e) => {
            if !e.is_active {
                Err(TicketPaymentError::EventInactive)
            } else {
                split_total(total, e.platform_fee_percent)
            }
        },
    }
}

/// The registry's answer checked for a purchase of `total`.
pub open spec fn quote_spec(total: i128, event: Option<&EventInfo>) -> Result<
    PaymentQuote,
    TicketPaymentError,
> {
    match event {
        None => Err(TicketPaymentError::EventNotFound),
        Some(e) => if !e.is_active {
            Err(TicketPaymentError::EventInactive)
        } else {
            split_total_spec(total, e.platform_fee_percent)
        },
    }
}

/// The outcome of splitting `total` at `bps` basis points.
pub open spec fn split_total_spec(total: i128, bps: u32) -> Result<PaymentQuote, TicketPaymentError> {
    if bps <= BPS_DENOMINATOR && total * bps <= i128::MAX {
        Ok(quote_of(total as int, bps as int))
    } else {
        Err(TicketPaymentError::ArithmeticError)
    }
}

/// The buyer must have authorised at least `total`.
pub fn check_allowance(total: i128, allowance: i128) -> (r: Result<(), TicketPaymentError>)
    ensures
        r == if allowance < total {
            Err::<(), TicketPaymentError>(TicketPaymentError::InsufficientAllowance)
        } else {
            Ok(())
        },
{
    if allowance < total {
        Err(TicketPaymentError::InsufficientAllowance)
    } else {
        Ok(())
    }
}

/// The holding balance must have grown by exactly `total` across the transfer.
pub fn verify_transfer(total: i128, balance_before: i128, balance_after: i128) -> (r: Result<
    (),
    TicketPaymentError,
>)
    ensures
        r == if balance_after - balance_before != total {
            Err::<(), TicketPaymentError>(TicketPaymentError::TransferVerificationFailed)
        } else {
            Ok(())
        },
{
    match balance_after.checked_sub(balance_before) {
        Some(d) => {
            if d != total {
                Err(TicketPaymentError::TransferVerificationFailed)
            } else {
                Ok(())
            }
        },
        None => Err(TicketPaymentError::TransferVerificationFailed),
    }
}

} // verus!
