//! Claims: a beneficiary asks for an amount, the ledger decides whether the
//! accounts are the right ones and the amount has vested, orders the
//! transfer from the treasury, and books it once the transfer was made.

use vstd::prelude::*;
use crate::address::{lemma_address_by_bytes, Address};
use crate::error::ErrorCode;
use crate::pda::{
    derive_employee_address, derive_plan_address, derived_view, employee_seeds, name_bytes,
    plan_seeds, program_address, treasury_seeds, treasury_signer_seeds, with_bump,
};
use crate::plan::VestingAccount;
use crate::schedule::EmployeeAccount;

verus! {

/// The accounts of a claim.
#[derive(Clone, Debug, PartialEq, Eq)]
pub struct ClaimTokens {
    /// The program under whose address plans and schedules are derived.
    pub program_id: Address,
    /// Who signed the claim.
    pub beneficiary: Address,
    /// Where the schedule is stored.
    pub employee_account_key: Address,
    /// The schedule.
    pub employee_account: EmployeeAccount,
    /// Where the plan is stored.
    pub vesting_account_key: Address,
    /// The plan.
    pub vesting_account: VestingAccount,
    /// The asset claimed.
    pub mint: Address,
    /// The number of decimals of the asset.
    pub mint_decimals: u8,
    /// The treasury that is to pay.
    pub treasury_token_account: Address,
    /// The beneficiary's account that is to receive.
    pub employee_token_account: Address,
}

/// A transfer that the ledger has authorized and that the token program is
/// to make.
#[derive(Clone, Debug, PartialEq, Eq)]
pub struct TransferOrder {
    /// The account that pays.
    pub from: Address,
    /// The asset.
    pub mint: Address,
    /// The account that receives.
    pub to: Address,
    /// The address under which the payer spends.
    pub authority: Address,
    /// The tokens to move.
    pub amount: u64,
    /// The number of decimals of the asset.
    pub decimals: u8,
    /// The seeds from which the authority is derived, its bump seed last.
    pub signer_seeds: Vec<Vec<u8>>,
}

/// What became of a transfer that was ordered.
#[derive(Clone, Copy, Debug, PartialEq, Eq, Structural)]
pub enum TransferOutcome {
    /// The tokens were moved.
    Completed,
    /// The payer does not hold the amount.
    InsufficientFunds,
    /// The authority was not accepted.
    Unauthorized,
}

impl ClaimTokens {
    /// The address that the plan's name and bump seed derive.
    pub open spec fn plan_derived(&self) -> Option<Seq<u8>> {
        program_address(
            with_bump(
                plan_seeds(name_bytes(self.vesting_account.company_name@)),
                self.vesting_account.bump,
            ),
            self.program_id@,
        )
    }

    /// The address that the signer, the plan's address and the schedule's
    /// bump seed derive.
    pub open spec fn schedule_derived(&self) -> Option<Seq<u8>> {
        program_address(
            with_bump(
                employee_seeds(self.beneficiary@, self.vesting_account_key@),
                self.employee_account.bump,
            ),
            self.program_id@,
        )
    }

    /// The accounts belong together: the schedule is the signer's and the
    /// plan's, the treasury and the asset are the plan's, and the plan and
    /// the schedule are stored at the addresses derived for them.
    pub open spec fn accounts_match(
        &self,
        plan: Option<Seq<u8>>,
        schedule: Option<Seq<u8>>,
    ) -> bool {
        &&& self.employee_account.beneficiary == self.beneficiary
        &&& self.employee_account.vesting_account == self.vesting_account_key
        &&& self.vesting_account.treasury_token_account == self.treasury_token_account
        &&& self.vesting_account.mint == self.mint
        &&& plan == Some(self.vesting_account_key@)
        &&& schedule == Some(self.employee_account_key@)
    }

    /// Whether `amount` may be claimed at `now`, given the addresses derived
    /// for the plan and the schedule; and if not, why. The accounts are
    /// judged before any amount is computed.
    pub open spec fn decision(
        &self,
        amount: u64,
        now: i64,
        plan: Option<Seq<u8>>,
        schedule: Option<Seq<u8>>,
    ) -> Result<(), ErrorCode> {
        if !self.accounts_match(plan, schedule) {
            Err(ErrorCode::Unauthorized)
        } else {
            self.employee_account.claim_check(amount, now)
        }
    }

    /// `order` moves exactly `amount` of the plan's asset from the treasury
    /// to the beneficiary's account, under the treasury's own address and
    /// the seeds that the plan's name and treasury bump seed give.
    pub open spec fn orders(&self, amount: u64, order: TransferOrder) -> bool {
        &&& order.from == self.treasury_token_account
        &&& order.mint == self.mint
        &&& order.to == self.employee_token_account
        &&& order.authority == self.treasury_token_account
        &&& order.amount == amount
        &&& order.decimals == self.mint_decimals
        &&& order.signer_seeds.deep_view() == with_bump(
            treasury_seeds(name_bytes(self.vesting_account.company_name@)),
            self.vesting_account.treasury_bump,
        )
    }

    /// What a claim returns: the refusal, if it was refused; else what
    /// became of the transfer, the amount where it was made.
    pub open spec fn claim_result(
        &self,
        amount: u64,
        now: i64,
        plan: Option<Seq<u8>>,
        schedule: Option<Seq<u8>>,
        outcome: TransferOutcome,
    ) -> Result<u64, ErrorCode> {
        match self.decision(amount, now, plan, schedule) {
            Err(refusal) => Err(refusal),
            Ok(_) => match outcome {
                TransferOutcome::Completed => Ok(amount),
                TransferOutcome::InsufficientFunds => Err(ErrorCode::InsufficientFunds),
                TransferOutcome::Unauthorized => Err(ErrorCode::Unauthorized),
            },
        }
    }

    /// The accounts after `amount` was claimed: the schedule has that much
    /// more withdrawn, and nothing else has changed.
    pub open spec fn claimed(&self, amount: u64) -> Self {
        ClaimTokens { employee_account: self.employee_account.withdrawn(amount), ..*self }
    }

    /// Decides a claim of `amount` at `now`, given the addresses derived for
    /// the plan and the schedule.
    pub fn decide(
        &self,
        amount: u64,
        now: i64,
        plan: Option<Address>,
        schedule: Option<Address>,
    ) -> (verdict: Result<(), ErrorCode>)
        ensures
            verdict == self.decision(amount, now, derived_view(plan), derived_view(schedule)),
    {
        let plan_key = match plan {
            Some(key) => key,
            None => { return Err(ErrorCode::Unauthorized); },
        };
        let schedule_key = match schedule {
            Some(key) => key,
            None => { return Err(ErrorCode::Unauthorized); },
        };
        proof {
            if plan_key@ == self.vesting_account_key@ {
                lemma_address_by_bytes(plan_key, self.vesting_account_key);
            }
            if schedule_key@ == self.employee_account_key@ {
                lemma_address_by_bytes(schedule_key, self.employee_account_key);
            }
        }
        if self.employee_account.beneficiary != self.beneficiary
            || self.employee_account.vesting_account != self.vesting_account_key
            || self.vesting_account.treasury_token_account != self.treasury_token_account
            || self.vesting_account.mint != self.mint || plan_key != self.vesting_account_key
            || schedule_key != self.employee_account_key {
            return Err(ErrorCode::Unauthorized);
        }
        self.employee_account.check_claim(amount, now)
    }

    /// The order for the transfer of `amount` to the beneficiary.
    pub fn transfer_order(&self, amount: u64) -> (order: TransferOrder)
        ensures
            self.orders(amount, order),
    {
        TransferOrder {
            from: self.treasury_token_account,
            mint: self.mint,
            to: self.employee_token_account,
            authority: self.treasury_token_account,
            amount,
            decimals: self.mint_decimals,
            signer_seeds: treasury_signer_seeds(
                &self.vesting_account.company_name,
                self.vesting_account.treasury_bump,
            ),
        }
    }

    /// Books a claim of `amount` at `now`, given the addresses derived for
    /// the plan and the schedule and what became of the transfer. Only a
    /// claim that was not refused and whose transfer was made changes the
    /// schedule, by exactly the amount.
    pub fn claim_with(
        &mut self,
        amount: u64,
        now: i64,
        plan: Option<Address>,
        schedule: Option<Address>,
        outcome: TransferOutcome,
    ) -> (transferred: Result<u64, ErrorCode>)
        ensures
            transferred == old(self).claim_result(
                amount,
                now,
                derived_view(plan),
                derived_view(schedule),
                outcome,
            ),
            transferred is Ok ==> *final(self) == old(self).claimed(amount),
            transferred is Ok ==> final(self).employee_account.total_withdrawn == old(
                self,
            ).employee_account.total_withdrawn + amount,
            transferred is Err ==> *final(self) == *old(self),
            old(self).employee_account.conserved() ==> final(self).employee_account.conserved(),
    {
        match self.decide(amount, now, plan, schedule) {
            Err(refusal) => Err(refusal),
            Ok(_) => match outcome {
                TransferOutcome::Completed => {
                    proof {
                        self.employee_account.lemma_claim_fits(amount, now);
                    }
                    self.employee_account.total_withdrawn = self.employee_account.total_withdrawn
                        + amount;
                    Ok(amount)
                },
                TransferOutcome::InsufficientFunds => Err(ErrorCode::InsufficientFunds),
                TransferOutcome::Unauthorized => Err(ErrorCode::Unauthorized),
            },
        }
    }
}

/// Decides a claim of `amount` at the time `now` and, where it is granted,
/// orders the transfer. The plan's address is derived again from its name
/// and bump seed, the schedule's from the signer, the plan's address and the
/// schedule's bump seed.
///
/// The claim is refused with `Unauthorized` where the accounts do not
/// belong together; else with `ClaimNotAvailableYet` before the cliff; else
/// with `InvalidVestingPeriod` where the schedule starts and ends at the
/// same time; else with `NothingToClaim` where more is asked than has
/// vested and was not withdrawn. Else the order moves exactly `amount`.
pub fn authorize_claim(ctx: &ClaimTokens, amount: u64, now: i64) -> (order: Result<
    TransferOrder,
    ErrorCode,
>)
    ensures
        match order {
            Ok(order) => {
                &&& ctx.decision(amount, now, ctx.plan_derived(), ctx.schedule_derived()) is Ok
                &&& ctx.orders(amount, order)
            },
            Err(refusal) => ctx.decision(amount, now, ctx.plan_derived(), ctx.schedule_derived())
                == Err::<(), ErrorCode>(refusal),
        },
{
    let plan = derive_plan_address(
        &ctx.program_id,
        &ctx.vesting_account.company_name,
        ctx.vesting_account.bump,
    );
    let schedule = derive_employee_address(
        &ctx.program_id,
        &ctx.beneficiary,
        &ctx.vesting_account_key,
        ctx.employee_account.bump,
    );
    match ctx.decide(amount, now, plan, schedule) {
        Err(refusal) => Err(refusal),
        Ok(_) => Ok(ctx.transfer_order(amount)),
    }
}

/// Books the claim of `amount` at the time `now`, after the transfer that
/// `authorize_claim` ordered was attempted with the given outcome, and
/// returns what was transferred.
///
/// The claim is judged again as `authorize_claim` judges it. Where it is
/// granted and the transfer was made, the schedule has `amount` more
/// withdrawn and the amount is returned. Where the transfer failed, the
/// failure is returned. In every other case than the first nothing changes.
pub fn claim_tokens(
    ctx: &mut ClaimTokens,
    amount: u64,
    now: i64,
    outcome: TransferOutcome,
) -> (transferred: Result<u64, ErrorCode>)
    ensures
        transferred == old(ctx).claim_result(
            amount,
            now,
            old(ctx).plan_derived(),
            old(ctx).schedule_derived(),
            outcome,
        ),
        transferred is Ok ==> *final(ctx) == old(ctx).claimed(amount),
        transferred is Ok ==> final(ctx).employee_account.total_withdrawn == old(
            ctx,
        ).employee_account.total_withdrawn + amount,
        transferred is Err ==> *final(ctx) == *old(ctx),
        old(ctx).employee_account.conserved() ==> final(ctx).employee_account.conserved(),
{
    let plan = derive_plan_address(
        &ctx.program_id,
        &ctx.vesting_account.company_name,
        ctx.vesting_account.bump,
    );
    let schedule = derive_employee_address(
        &ctx.program_id,
        &ctx.beneficiary,
        &ctx.vesting_account_key,
        ctx.employee_account.bump,
    );
    ctx.claim_with(amount, now, plan, schedule, outcome)
}

} // verus!
