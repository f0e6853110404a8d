use vstd::prelude::*;

use crate::contract::{confirmable, confirmed};
use crate::escrow::{
    empty_escrow, organizer_credited, payout_of, revenue, run, step, Escrow, EscrowStep,
};
use crate::payment::{quote_of, split_total_spec, PaymentQuote};
use crate::types::{EventBalance, Payment, PaymentStatus};

verus! {

/// Whether every step of `steps` pays out a non-negative amount.
pub open spec fn payouts_non_negative(steps: Seq<EscrowStep>) -> bool {
    forall|i: int|
        0 <= i < steps.len() ==> match #[trigger] steps[i] {
            EscrowStep::PayOrganizer { amount } => amount >= 0,
            _ => true,
        }
}

/// Escrow conservation: whatever sequence of credits and payouts an event's
/// escrow goes through from empty, what is still owed to the organizer plus
/// what was paid out equals everything ever credited to the organizer.
pub proof fn law_escrow_conservation(steps: Seq<EscrowStep>)
    ensures
        run(empty_escrow(), steps).organizer + run(empty_escrow(), steps).withdrawn
            == organizer_credited(steps),
    decreases steps.len(),
{
    if steps.len() > 0 {
        law_escrow_conservation(steps.drop_last());
    }
}

/// Withdrawal monotonicity: no step with a non-negative payout lowers what
/// was paid out to the organizer, so neither does any sequence of them.
pub proof fn law_withdrawn_never_decreases(e: Escrow, steps: Seq<EscrowStep>)
    requires
        payouts_non_negative(steps),
    ensures
        run(e, steps).withdrawn >= e.withdrawn,
    decreases steps.len(),
{
    if steps.len() > 0 {
        let rest = steps.drop_last();
        assert forall|i: int| 0 <= i < rest.len() implies match #[trigger] rest[i] {
            EscrowStep::PayOrganizer { amount } => amount >= 0,
            _ => true,
        } by {
            assert(rest[i] == steps[i]);
        }
        law_withdrawn_never_decreases(e, rest);
        assert(match steps[steps.len() - 1] {
            EscrowStep::PayOrganizer { amount } => amount >= 0,
            _ => true,
        });
    }
}

/// Repeated withdrawal: once the organizer was paid what a release allows,
/// asking again with no new sales and no new milestone pays nothing.
pub proof fn law_second_withdrawal_pays_nothing(b: EventBalance, release: int, after: EventBalance)
    requires
        b.wf(),
        release >= 0,
        after@ == step(b@, EscrowStep::PayOrganizer { amount: payout_of(b, release) }),
    ensures
        payout_of(after, release) == 0,
{
    assert(revenue(after) == revenue(b));
}

/// A payout never exceeds what escrow holds and is never negative.
pub proof fn law_payout_within_escrow(b: EventBalance, release: int)
    requires
        b.wf(),
    ensures
        0 <= payout_of(b, release) <= b.organizer_amount,
{
}

/// Fee split: when a purchase's total splits, the fee and the organizer's
/// share add up to the total exactly.
pub proof fn law_split_is_exact(total: i128, bps: u32)
    requires
        total > 0,
        split_total_spec(total, bps) is Ok,
    ensures
        quote_of(total as int, bps as int).platform_fee + quote_of(
            total as int,
            bps as int,
        ).organizer_amount == total,
        split_total_spec(total, bps) == Ok::<PaymentQuote, crate::types::TicketPaymentError>(
            quote_of(total as int, bps as int),
        ),
{
    assert(0 <= total * bps / 10000 <= total) by (nonlinear_arith)
        requires
            total > 0,
            bps <= 10000,
    ;
}

/// Confirming twice: a payment once confirmed may be confirmed again, and
/// confirming it again under the same reference gives the payment confirmed
/// once at the later time; its status stays Confirmed.
pub proof fn law_confirm_twice(p: Payment, tx: String, first: u64, second: u64)
    ensures
        confirmable(confirmed(p, tx, first)),
        confirmed(confirmed(p, tx, first), tx, second) == confirmed(p, tx, second),
        confirmed(confirmed(p, tx, first), tx, second).status == PaymentStatus::Confirmed,
{
}

/// Confirmation of a stored payment only changes its status, reference and
/// stamp: all else of the record is kept.
pub proof fn law_confirm_keeps_record(p: Payment, tx: String, now: u64)
    ensures
        ({
            let c = confirmed(p, tx, now);
            &&& c.payment_id == p.payment_id
            &&& c.event_id == p.event_id
            &&& c.buyer_address == p.buyer_address
            &&& c.amount == p.amount
            &&& c.platform_fee == p.platform_fee
            &&& c.organizer_amount == p.organizer_amount
            &&& c.transaction_hash == tx
            &&& c.confirmed_at == Some(now)
        }),
{
}

} // verus!
