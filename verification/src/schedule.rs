//! An employee's vesting schedule and the arithmetic of what has vested.
//!
//! Between its start and its end a schedule vests in proportion to the time
//! elapsed, rounded down; from its end on, all of it has vested. Nothing can
//! be claimed before the cliff.

use vstd::prelude::*;
use vstd::arithmetic::div_mod::{lemma_div_is_ordered, lemma_div_multiples_vanish};
use vstd::arithmetic::mul::{lemma_mul_inequality, lemma_mul_is_commutative};
use crate::address::Address;
use crate::error::ErrorCode;

verus! {

/// One beneficiary's schedule under a plan, and what was withdrawn so far.
#[derive(Clone, Copy, Debug, PartialEq, Eq)]
pub struct EmployeeAccount {
    /// Who receives the tokens.
    pub beneficiary: Address,
    /// When vesting starts.
    pub start_time: i64,
    /// When everything has vested.
    pub end_time: i64,
    /// The earliest time of any claim.
    pub cliff_time: i64,
    /// The plan that this schedule belongs to.
    pub vesting_account: Address,
    /// All that the beneficiary is allotted.
    pub total_amount: u64,
    /// All that the beneficiary has received.
    pub total_withdrawn: u64,
    /// The bump seed of the schedule's own address.
    pub bump: u8,
}

impl EmployeeAccount {
    /// No more was withdrawn than was allotted.
    pub open spec fn conserved(&self) -> bool {
        self.total_withdrawn <= self.total_amount
    }

    /// The time elapsed since the start, zero before it.
    pub open spec fn elapsed_at(&self, now: i64) -> int {
        if now > self.start_time {
            now - self.start_time
        } else {
            0
        }
    }

    /// The length of the vesting window.
    pub open spec fn window(&self) -> int {
        self.end_time - self.start_time
    }

    /// What has vested at `now`: everything from the end on; before it, the
    /// share of the window that has elapsed, rounded down.
    pub open spec fn vested_at(&self, now: i64) -> int {
        if now >= self.end_time {
            self.total_amount as int
        } else if self.window() > 0 {
            self.total_amount * self.elapsed_at(now) / self.window()
        } else {
            0
        }
    }

    /// What can be claimed at `now`: what has vested and was not withdrawn.
    pub open spec fn claimable_at(&self, now: i64) -> int {
        if self.vested_at(now) > self.total_withdrawn {
            self.vested_at(now) - self.total_withdrawn
        } else {
            0
        }
    }

    /// Whether `amount` may be claimed at `now`, and if not, why: the cliff
    /// comes first, then the window, then the amount.
    pub open spec fn claim_check(&self, amount: u64, now: i64) -> Result<(), ErrorCode> {
        if now < self.cliff_time {
            Err(ErrorCode::ClaimNotAvailableYet)
        } else if self.window() == 0 {
            Err(ErrorCode::InvalidVestingPeriod)
        } else if self.claimable_at(now) < amount {
            Err(ErrorCode::NothingToClaim)
        } else {
            Ok(())
        }
    }

    /// The schedule after `amount` more was withdrawn.
    pub open spec fn withdrawn(&self, amount: u64) -> EmployeeAccount {
        EmployeeAccount { total_withdrawn: (self.total_withdrawn + amount) as u64, ..*self }
    }

    /// What has vested lies between nothing and the whole allotment.
    pub proof fn lemma_vested_bounds(&self, now: i64)
        ensures
            0 <= self.vested_at(now) <= self.total_amount,
    {
        if now < self.end_time && self.window() > 0 {
            lemma_share_bounds(
                self.total_amount as int,
                self.elapsed_at(now),
                self.window(),
            );
        }
    }

    /// A claim that passes the check fits the ledger: the withdrawn total
    /// grows by the amount without overflow, stays within what has vested
    /// unless it was beyond it already, and stays within the allotment if it
    /// was within it.
    pub proof fn lemma_claim_fits(&self, amount: u64, now: i64)
        requires
            self.claim_check(amount, now) is Ok,
        ensures
            self.withdrawn(amount).total_withdrawn == self.total_withdrawn + amount,
            amount > 0 ==> self.total_withdrawn + amount <= self.vested_at(now),
            self.conserved() ==> self.withdrawn(amount).conserved(),
    {
        self.lemma_vested_bounds(now);
    }

    /// Computes what has vested at `now`.
    pub fn vested_amount(&self, now: i64) -> (vested: u64)
        ensures
            vested == self.vested_at(now),
    {
        if now >= self.end_time {
            return self.total_amount;
        }
        if self.end_time <= self.start_time {
            return 0;
        }
        if now <= self.start_time {
            proof {
                lemma_share_bounds(self.total_amount as int, 0, self.window());
                assert(self.total_amount * 0 == 0);
            }
            return 0;
        }
        let elapsed: u128 = (now as i128 - self.start_time as i128) as u128;
        let window: u128 = (self.end_time as i128 - self.start_time as i128) as u128;
        proof {
            lemma_share_bounds(self.total_amount as int, elapsed as int, window as int);
            lemma_mul_inequality(elapsed as int, window as int, self.total_amount as int);
            lemma_mul_is_commutative(elapsed as int, self.total_amount as int);
            lemma_mul_is_commutative(window as int, self.total_amount as int);
            lemma_mul_inequality(
                self.total_amount as int,
                0x1_0000_0000_0000_0000,
                window as int,
            );
            assert(self.total_amount * window <= 0x1_0000_0000_0000_0000 * window);
        }
        let product: u128 = (self.total_amount as u128) * elapsed;
        (product / window) as u64
    }

    /// Computes what can be claimed at `now`.
    pub fn claimable_amount(&self, now: i64) -> (claimable: u64)
        ensures
            claimable == self.claimable_at(now),
    {
        let vested = self.vested_amount(now);
        if vested > self.total_withdrawn {
            vested - self.total_withdrawn
        } else {
            0
        }
    }

    /// Decides whether `amount` may be claimed at `now`.
    pub fn check_claim(&self, amount: u64, now: i64) -> (verdict: Result<(), ErrorCode>)
        ensures
            verdict == self.claim_check(amount, now),
    {
        if now < self.cliff_time {
            return Err(ErrorCode::ClaimNotAvailableYet);
        }
        if self.end_time == self.start_time {
            return Err(ErrorCode::InvalidVestingPeriod);
        }
        if self.claimable_amount(now) < amount {
            return Err(ErrorCode::NothingToClaim);
        }
        Ok(())
    }
}

/// The share `total * part / whole` of a total, for a part of a whole, lies
/// between nothing and the total.
pub proof fn lemma_share_bounds(total: int, part: int, whole: int)
    requires
        0 <= total,
        0 <= part <= whole,
        0 < whole,
    ensures
        0 <= total * part / whole <= total,
{
    lemma_mul_inequality(part, whole, total);
    lemma_mul_is_commutative(part, total);
    lemma_mul_is_commutative(whole, total);
    lemma_mul_inequality(0, part, total);
    lemma_mul_is_commutative(0, total);
    assert(0 <= total * part <= total * whole);
    lemma_div_is_ordered(total * part, total * whole, whole);
    lemma_div_is_ordered(0, total * part, whole);
    lemma_div_multiples_vanish(total, whole);
}

/// The share grows with the part.
pub proof fn lemma_share_monotonic(total: int, part: int, more: int, whole: int)
    requires
        0 <= total,
        part <= more,
        0 < whole,
    ensures
        total * part / whole <= total * more / whole,
{
    lemma_mul_inequality(part, more, total);
    lemma_mul_is_commutative(part, total);
    lemma_mul_is_commutative(more, total);
    lemma_div_is_ordered(total * part, total * more, whole);
}

} // verus!
