//! Enrolling an employee: the owner of a plan gives one beneficiary one
//! schedule, found again by the beneficiary and the plan.

use vstd::prelude::*;
use crate::address::{lemma_address_by_bytes, Address};
use crate::error::ErrorCode;
use crate::pda::{
    employee_seeds, find_employee_address, found_address, found_bump, found_program_address,
    found_view, lemma_found_derives, program_address, with_bump,
};
use crate::plan::VestingAccount;
use crate::schedule::EmployeeAccount;

verus! {

/// The accounts of an employee's enrollment.
#[derive(Clone, Debug, PartialEq, Eq)]
pub struct CreateEmployeeAccount {
    /// The program under whose address schedules are derived.
    pub program_id: Address,
    /// Who asks for the schedule.
    pub owner: Address,
    /// Who is to receive the tokens.
    pub beneficiary: Address,
    /// Where the plan is stored.
    pub vesting_account_key: Address,
    /// The plan.
    pub vesting_account: VestingAccount,
    /// Where the schedule is to be stored.
    pub employee_account_key: Address,
    /// The schedule stored there, if any.
    pub employee_account: Option<EmployeeAccount>,
}

impl CreateEmployeeAccount {
    /// Whether a schedule can be created in these accounts, given what the
    /// search for the schedule's address found; and if not, why. The owner
    /// is judged first, then the address, then whether the place is free.
    pub open spec fn enrollment(&self, schedule: Option<(Seq<u8>, u8)>) -> Result<(), ErrorCode> {
        if self.vesting_account.owner != self.owner {
            Err(ErrorCode::NotPlanOwner)
        } else if found_address(schedule) != Some(self.employee_account_key@) {
            Err(ErrorCode::Unauthorized)
        } else if self.employee_account is Some {
            Err(ErrorCode::DuplicateSchedule)
        } else {
            Ok(())
        }
    }

    /// The accounts after the schedule was created with the given terms and
    /// bump seed: nothing is withdrawn yet.
    pub open spec fn enrolled(
        &self,
        start_time: i64,
        end_time: i64,
        total_amount: u64,
        cliff_time: i64,
        bump: u8,
    ) -> Self {
        CreateEmployeeAccount {
            employee_account: Some(
                EmployeeAccount {
                    beneficiary: self.beneficiary,
                    start_time,
                    end_time,
                    cliff_time,
                    vesting_account: self.vesting_account_key,
                    total_amount,
                    total_withdrawn: 0,
                    bump,
                },
            ),
            ..*self
        }
    }

    /// The schedule stored in these accounts carries a bump seed under which
    /// its address derives again from the beneficiary and the plan.
    pub open spec fn derives_again(&self) -> bool {
        self.employee_account matches Some(schedule) && program_address(
            with_bump(
                employee_seeds(schedule.beneficiary@, schedule.vesting_account@),
                schedule.bump,
            ),
            self.program_id@,
        ) == Some(self.employee_account_key@)
    }

    /// Creates the schedule, given what the search for its address found.
    /// The terms are taken as they are: neither their order nor the length
    /// of the window is judged here. On a refusal nothing changes.
    pub fn enroll(
        &mut self,
        start_time: i64,
        end_time: i64,
        total_amount: u64,
        cliff_time: i64,
        schedule: Option<(Address, u8)>,
    ) -> (done: Result<(), ErrorCode>)
        ensures
            done == old(self).enrollment(found_view(schedule)),
            done is Ok ==> *final(self) == old(self).enrolled(
                start_time,
                end_time,
                total_amount,
                cliff_time,
                found_bump(found_view(schedule)),
            ),
            done is Ok ==> (final(self).employee_account matches Some(stored)
                && stored.conserved()),
            done is Err ==> *final(self) == *old(self),
    {
        if self.vesting_account.owner != self.owner {
            return Err(ErrorCode::NotPlanOwner);
        }
        let (schedule_key, bump) = match schedule {
            Some(found) => found,
            None => { return Err(ErrorCode::Unauthorized); },
        };
        proof {
            if schedule_key@ == self.employee_account_key@ {
                lemma_address_by_bytes(schedule_key, self.employee_account_key);
            }
        }
        if schedule_key != self.employee_account_key {
            return Err(ErrorCode::Unauthorized);
        }
        if self.employee_account.is_some() {
            return Err(ErrorCode::DuplicateSchedule);
        }
        self.employee_account = Some(
            EmployeeAccount {
                beneficiary: self.beneficiary,
                start_time,
                end_time,
                cliff_time,
                vesting_account: self.vesting_account_key,
                total_amount,
                total_withdrawn: 0,
                bump,
            },
        );
        Ok(())
    }
}

/// Gives the beneficiary among the accounts a schedule under the plan. The
/// schedule's address is searched from the beneficiary and the plan's
/// address under the program; the account handed in must be at it. The
/// beneficiary is the one among the accounts, whatever `_beneficiary` is.
///
/// The call is refused with `NotPlanOwner` where the requester does not own
/// the plan; else with `Unauthorized` where the search finds no address or
/// another than that of the account handed in; else with
/// `DuplicateSchedule` where the schedule is there already. On a refusal
/// nothing changes. Else the schedule is stored with the terms given, with
/// nothing withdrawn, and with the bump seed that was found, under which
/// its address derives again.
pub fn create_employee_account(
    ctx: &mut CreateEmployeeAccount,
    _beneficiary: Address,
    start_time: i64,
    end_time: i64,
    total_amount: u64,
    cliff_time: i64,
) -> (done: Result<(), ErrorCode>)
    ensures
        done == old(ctx).enrollment(
            found_program_address(
                employee_seeds(old(ctx).beneficiary@, old(ctx).vesting_account_key@),
                old(ctx).program_id@,
            ),
        ),
        done is Ok ==> *final(ctx) == old(ctx).enrolled(
            start_time,
            end_time,
            total_amount,
            cliff_time,
            found_bump(
                found_program_address(
                    employee_seeds(old(ctx).beneficiary@, old(ctx).vesting_account_key@),
                    old(ctx).program_id@,
                ),
            ),
        ),
        done is Ok ==> final(ctx).derives_again(),
        done is Ok ==> (final(ctx).employee_account matches Some(stored) && stored.conserved()),
        done is Err ==> *final(ctx) == *old(ctx),
{
    proof {
        lemma_found_derives(
            employee_seeds(ctx.beneficiary@, ctx.vesting_account_key@),
            ctx.program_id@,
        );
    }
    let schedule = find_employee_address(
        &ctx.program_id,
        &ctx.beneficiary,
        &ctx.vesting_account_key,
    );
    ctx.enroll(start_time, end_time, total_amount, cliff_time, schedule)
}

} // verus!
