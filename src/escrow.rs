use vstd::prelude::*;

use crate::types::{EventBalance, Milestone};

verus! {

/// Basis points in one whole.
pub const BPS_DENOMINATOR: i128 = 10000;

/// Basis points that release everything.
pub const FULL_RELEASE: u32 = 10000;

/// The escrow counters of an event as mathematical integers.
pub struct Escrow {
    pub organizer: int,
    pub platform: int,
    pub withdrawn: int,
}

/// One change to an event's escrow counters.
pub enum EscrowStep {
    /// A purchase or a transfer fee owes `organizer` more to the organizer and
    /// `platform` more to the platform.
    Credit { organizer: int, platform: int },
    /// `amount` of the organizer's share is paid out.
    PayOrganizer { amount: int },
    /// The whole platform share is paid out.
    PayPlatform,
}

/// The counters after one step.
pub open spec fn step(e: Escrow, s: EscrowStep) -> Escrow {
    match s {
        EscrowStep::Credit { organizer, platform } => Escrow {
            organizer: e.organizer + organizer,
            platform: e.platform + platform,
            withdrawn: e.withdrawn,
        },
        EscrowStep::PayOrganizer { amount } => Escrow {
            organizer: e.organizer - amount,
            platform: e.platform,
            withdrawn: e.withdrawn + amount,
        },
        EscrowStep::PayPlatform => Escrow { organizer: e.organizer, platform: 0, withdrawn: e.withdrawn },
    }
}

/// The counters after a sequence of steps.
pub open spec fn run(e: Escrow, steps: Seq<EscrowStep>) -> Escrow
    decreases steps.len(),
{
    if steps.len() == 0 {
        e
    } else {
        step(run(e, steps.drop_last()), steps.last())
    }
}

/// What a sequence of steps owed the organizer in all.
pub open spec fn organizer_credited(steps: Seq<EscrowStep>) -> int
    decreases steps.len(),
{
    if steps.len() == 0 {
        0
    } else {
        organizer_credited(steps.drop_last()) + match steps.last() {
            EscrowStep::Credit { organizer, platform } => organizer,
            _ => 0,
        }
    }
}

/// The escrow of an event that has never been paid for.
pub open spec fn empty_escrow() -> Escrow {
    Escrow { organizer: 0, platform: 0, withdrawn: 0 }
}

impl View for EventBalance {
    type V = Escrow;

    open spec fn view(&self) -> Escrow {
        Escrow {
            organizer: self.organizer_amount as int,
            platform: self.platform_fee as int,
            withdrawn: self.total_withdrawn as int,
        }
    }
}

/// What the organizer has earned over the event's life: what is still held
/// plus what was already paid out.
pub open spec fn revenue(b: EventBalance) -> int {
    b.organizer_amount + b.total_withdrawn
}

/// A balance whose counters are non-negative and whose lifetime revenue fits
/// an `i128`.
pub open spec fn balance_ok(b: EventBalance) -> bool {
    b.wf() && revenue(b) <= i128::MAX
}

/// The highest release among the milestones whose threshold `sold` reaches,
/// or 0 when none is reached.
pub open spec fn highest_met(plan: Seq<Milestone>, sold: int) -> int
    decreases plan.len(),
{
    if plan.len() == 0 {
        0
    } else {
        let rest = highest_met(plan.drop_last(), sold);
        let m = plan.last();
        if sold >= m.sales_threshold && m.release_percent > rest {
            m.release_percent as int
        } else {
            rest
        }
    }
}

/// `highest_met` is the maximum over the met milestones: no met milestone
/// releases more, and the result is 0 or the release of a met milestone.
pub proof fn lemma_highest_met_is_maximum(plan: Seq<Milestone>, sold: int)
    ensures
        forall|i: int|
            0 <= i < plan.len() && plan[i].sales_threshold <= sold ==> #[trigger] plan[i].release_percent
                <= highest_met(plan, sold),
        highest_met(plan, sold) == 0 || exists|i: int|
            0 <= i < plan.len() && plan[i].sales_threshold <= sold && #[trigger] plan[i].release_percent
                == highest_met(plan, sold),
    decreases plan.len(),
{
    if plan.len() > 0 {
        let rest = plan.drop_last();
        lemma_highest_met_is_maximum(rest, sold);
        assert forall|i: int|
            0 <= i < plan.len() && plan[i].sales_threshold <= sold implies #[trigger] plan[i].release_percent
                <= highest_met(plan, sold) by {
            if i < plan.len() - 1 {
                assert(plan[i] == rest[i]);
            }
        }
        if highest_met(plan, sold) != 0 {
            if highest_met(plan, sold) == highest_met(rest, sold) {
                let j = choose|j: int|
                    0 <= j < rest.len() && rest[j].sales_threshold <= sold && #[trigger] rest[j].release_percent
                        == highest_met(rest, sold);
                assert(plan[j] == rest[j]);
            } else {
                assert(plan[plan.len() - 1] == plan.last());
            }
        }
    }
}

/// The share of revenue, in basis points, that a release plan unlocks at
/// `sold` units: everything without a plan or with an empty one.
pub open spec fn release_of(plan: Option<Seq<Milestone>>, sold: int) -> int {
    match plan {
        None => FULL_RELEASE as int,
        Some(ms) => if ms.len() == 0 {
            FULL_RELEASE as int
        } else {
            highest_met(ms, sold)
        },
    }
}

/// What may still be paid to the organizer: the unlocked part of lifetime
/// revenue less what was paid already, never below 0 nor above what is held.
pub open spec fn payout_of(b: EventBalance, release: int) -> int {
    let unlocked = revenue(b) * release / (BPS_DENOMINATOR as int);
    let open = unlocked - b.total_withdrawn;
    if open <= 0 {
        0
    } else if open > b.organizer_amount {
        b.organizer_amount as int
    } else {
        open
    }
}

/// The milestones of an optional plan.
pub open spec fn plan_view(plan: Option<Vec<Milestone>>) -> Option<Seq<Milestone>> {
    match plan {
        Some(v) => Some(v@),
        None => None,
    }
}

/// The release that `plan` grants at `sold` units, in basis points.
pub fn release_percent(plan: &Option<Vec<Milestone>>, sold: i128) -> (r: u32)
    ensures
        r == release_of(plan_view(*plan), sold as int),
{
    match plan {
        None => FULL_RELEASE,
        Some(ms) => {
            if ms.len() == 0 {
                return FULL_RELEASE;
            }
            let mut highest: u32 = 0;
            let mut i: usize = 0;
            while i < ms.len()
                invariant
                    i <= ms.len(),
                    highest == highest_met(ms@.subrange(0, i as int), sold as int),
                decreases ms.len() - i,
            {
                let m = ms[i];
                proof {
                    assert(ms@.subrange(0, i as int + 1).drop_last() == ms@.subrange(0, i as int));
                }
                if sold >= m.sales_threshold && m.release_percent > highest {
                    highest = m.release_percent;
                }
                i = i + 1;
            }
            proof {
                assert(ms@.subrange(0, ms.len() as int) == ms@);
            }
            highest
        },
    }
}

impl EventBalance {
    /// Adds to both shares. `None`, with nothing changed, when the organizer's
    /// lifetime revenue or the platform's share would not fit an `i128`.
    pub fn credit(&self, organizer_delta: i128, platform_delta: i128) -> (r: Option<EventBalance>)
        requires
            balance_ok(*self),
            organizer_delta >= 0,
            platform_delta >= 0,
        ensures
            r is Some <==> (revenue(*self) + organizer_delta <= i128::MAX && self.platform_fee
                + platform_delta <= i128::MAX),
            r matches Some(b) ==> b@ == step(
                self@,
                EscrowStep::Credit { organizer: organizer_delta as int, platform: platform_delta as int },
            ) && balance_ok(b),
    {
        if organizer_delta > i128::MAX - self.organizer_amount - self.total_withdrawn {
            return None;
        }
        if platform_delta > i128::MAX - self.platform_fee {
            return None;
        }
        Some(
            EventBalance {
                organizer_amount: self.organizer_amount + organizer_delta,
                platform_fee: self.platform_fee + platform_delta,
                total_withdrawn: self.total_withdrawn,
            },
        )
    }

    /// Moves `amount` from what the organizer is owed to what was paid out.
    pub fn debit_organizer(&self, amount: i128) -> (r: EventBalance)
        requires
            balance_ok(*self),
            0 <= amount <= self.organizer_amount,
        ensures
            r@ == step(self@, EscrowStep::PayOrganizer { amount: amount as int }),
            balance_ok(r),
            revenue(r) == revenue(*self),
    {
        EventBalance {
            organizer_amount: self.organizer_amount - amount,
            platform_fee: self.platform_fee,
            total_withdrawn: self.total_withdrawn + amount,
        }
    }

    /// Clears the platform's share.
    pub fn debit_platform(&self) -> (r: EventBalance)
        requires
            balance_ok(*self),
        ensures
            r@ == step(self@, EscrowStep::PayPlatform),
            balance_ok(r),
    {
        EventBalance {
            organizer_amount: self.organizer_amount,
            platform_fee: 0,
            total_withdrawn: self.total_withdrawn,
        }
    }

    /// What the organizer may be paid now under a release of `release`
    /// basis points. `None` when the unlocked amount does not fit an `i128`.
    pub fn organizer_payout(&self, release: u32) -> (r: Option<i128>)
        requires
            balance_ok(*self),
        ensures
            r is Some <==> revenue(*self) * release <= i128::MAX,
            r matches Some(a) ==> a == payout_of(*self, release as int) && 0 <= a
                <= self.organizer_amount,
    {
        let total_revenue = self.organizer_amount + self.total_withdrawn;
        if total_revenue == 0 {
            proof {
                assert(revenue(*self) * release == 0);
            }
            return Some(0);
        }
        let unlocked = match total_revenue.checked_mul(release as i128) {
            Some(p) => p / BPS_DENOMINATOR,
            None => {
                return None;
            },
        };
        let open = unlocked - self.total_withdrawn;
        if open <= 0 {
            Some(0)
        } else if open > self.organizer_amount {
            Some(self.organizer_amount)
        } else {
            Some(open)
        }
    }
}

} // verus!
