//! What holds of every schedule and of every run of claims.

use vstd::prelude::*;
use crate::claim::{ClaimTokens, TransferOrder, TransferOutcome};
use crate::enrollment::CreateEmployeeAccount;
use crate::error::ErrorCode;
use crate::plan::{CreateVestingAccount, MAX_COMPANY_NAME_LEN};
use crate::address::{lemma_address_by_bytes, Address};
use crate::pda::{
    employee_seeds, found_address, found_program_address, lemma_employee_seed_bytes,
    lemma_name_seed_bytes,
    lemma_name_seeds_fit, name_bytes, plan_seeds, program_address, seed_bytes, seeds_fit,
    treasury_seeds, with_bump, EMPLOYEE_TAG, PLAN_TAG, TREASURY_TAG,
};
use crate::schedule::{lemma_share_monotonic, EmployeeAccount};

verus! {

/// One claim as it reaches the ledger: the amount asked, the time, and what
/// became of the transfer where one was ordered.
pub struct ClaimAttempt {
    /// The amount asked for.
    pub amount: u64,
    /// The time of the claim.
    pub now: i64,
    /// What became of the transfer, had one been ordered.
    pub outcome: TransferOutcome,
}

impl ClaimTokens {
    /// What `claim_tokens` returns for the attempt.
    pub open spec fn attempt_result(&self, attempt: ClaimAttempt) -> Result<u64, ErrorCode> {
        self.claim_result(
            attempt.amount,
            attempt.now,
            self.plan_derived(),
            self.schedule_derived(),
            attempt.outcome,
        )
    }

    /// The accounts as `claim_tokens` leaves them after the attempt.
    pub open spec fn after_attempt(&self, attempt: ClaimAttempt) -> ClaimTokens {
        if self.attempt_result(attempt) is Ok {
            self.claimed(attempt.amount)
        } else {
            *self
        }
    }

    /// The accounts after the attempts, made one after the other.
    pub open spec fn after_attempts(&self, attempts: Seq<ClaimAttempt>) -> ClaimTokens
        decreases attempts.len(),
    {
        if attempts.len() == 0 {
            *self
        } else {
            self.after_attempts(attempts.drop_last()).after_attempt(attempts.last())
        }
    }

    /// The sum of what the attempts transferred, made one after the other.
    pub open spec fn transferred_in(&self, attempts: Seq<ClaimAttempt>) -> int
        decreases attempts.len(),
    {
        if attempts.len() == 0 {
            0
        } else {
            let before = self.after_attempts(attempts.drop_last());
            self.transferred_in(attempts.drop_last()) + match before.attempt_result(
                attempts.last(),
            ) {
                Ok(amount) => amount as int,
                Err(_) => 0,
            }
        }
    }
}

/// Before the cliff a claim among matching accounts is refused as not yet
/// available, whatever amount is asked and whatever else the schedule says.
pub proof fn law_nothing_before_cliff(
    ctx: ClaimTokens,
    amount: u64,
    now: i64,
    plan: Option<Seq<u8>>,
    schedule: Option<Seq<u8>>,
    outcome: TransferOutcome,
)
    requires
        ctx.accounts_match(plan, schedule),
        now < ctx.employee_account.cliff_time,
    ensures
        ctx.employee_account.claim_check(amount, now) == Err::<(), ErrorCode>(
            ErrorCode::ClaimNotAvailableYet,
        ),
        ctx.decision(amount, now, plan, schedule) == Err::<(), ErrorCode>(
            ErrorCode::ClaimNotAvailableYet,
        ),
        ctx.claim_result(amount, now, plan, schedule, outcome) == Err::<u64, ErrorCode>(
            ErrorCode::ClaimNotAvailableYet,
        ),
{
}

/// From the cliff on, a claim among matching accounts on a schedule that
/// starts and ends at the same time is refused for its vesting period.
pub proof fn law_empty_window_refused(
    ctx: ClaimTokens,
    amount: u64,
    now: i64,
    plan: Option<Seq<u8>>,
    schedule: Option<Seq<u8>>,
    outcome: TransferOutcome,
)
    requires
        ctx.accounts_match(plan, schedule),
        now >= ctx.employee_account.cliff_time,
        ctx.employee_account.end_time - ctx.employee_account.start_time == 0,
    ensures
        ctx.employee_account.claim_check(amount, now) == Err::<(), ErrorCode>(
            ErrorCode::InvalidVestingPeriod,
        ),
        ctx.decision(amount, now, plan, schedule) == Err::<(), ErrorCode>(
            ErrorCode::InvalidVestingPeriod,
        ),
        ctx.claim_result(amount, now, plan, schedule, outcome) == Err::<u64, ErrorCode>(
            ErrorCode::InvalidVestingPeriod,
        ),
{
}

/// What has vested never shrinks as time goes on.
pub proof fn law_vested_monotonic(schedule: EmployeeAccount, earlier: i64, later: i64)
    requires
        earlier <= later,
    ensures
        schedule.vested_at(earlier) <= schedule.vested_at(later),
{
    schedule.lemma_vested_bounds(earlier);
    if later < schedule.end_time && schedule.window() > 0 {
        lemma_share_monotonic(
            schedule.total_amount as int,
            schedule.elapsed_at(earlier),
            schedule.elapsed_at(later),
            schedule.window(),
        );
    }
}

/// From the end of the schedule on, everything has vested.
pub proof fn law_vested_saturates(schedule: EmployeeAccount, now: i64)
    requires
        now >= schedule.end_time,
    ensures
        schedule.vested_at(now) == schedule.total_amount,
{
}

/// Where the window is not empty, what has vested before the end is the
/// allotment times the time elapsed, divided by the window and rounded down.
pub proof fn law_vested_formula(schedule: EmployeeAccount, now: i64)
    requires
        schedule.window() != 0,
        now < schedule.end_time,
    ensures
        schedule.vested_at(now) == schedule.total_amount * schedule.elapsed_at(now)
            / schedule.window(),
{
    if schedule.window() < 0 {
        assert(schedule.elapsed_at(now) == 0);
        assert(schedule.total_amount * 0 == 0);
        assert(0int / schedule.window() == 0) by (nonlinear_arith)
            requires
                schedule.window() != 0,
        ;
    }
}

/// One attempt changes nothing but what the schedule has withdrawn, which
/// grows by exactly what was transferred and stays within the allotment.
pub proof fn law_attempt_conserves(ctx: ClaimTokens, attempt: ClaimAttempt)
    requires
        ctx.employee_account.conserved(),
    ensures
        ctx.after_attempt(attempt).employee_account.conserved(),
        ctx.after_attempt(attempt) == (ClaimTokens {
            employee_account: EmployeeAccount {
                total_withdrawn: ctx.after_attempt(attempt).employee_account.total_withdrawn,
                ..ctx.employee_account
            },
            ..ctx
        }),
        ctx.after_attempt(attempt).employee_account.total_withdrawn
            == ctx.employee_account.total_withdrawn + match ctx.attempt_result(attempt) {
            Ok(amount) => amount as int,
            Err(_) => 0,
        },
{
    if ctx.attempt_result(attempt) is Ok {
        ctx.employee_account.lemma_claim_fits(attempt.amount, attempt.now);
    }
}

/// After any run of claims, granted or refused, the schedule has withdrawn
/// what it had before and the sum of all that was transferred, never less
/// than before and never more than its allotment; nothing else has changed.
pub proof fn law_conservation(ctx: ClaimTokens, attempts: Seq<ClaimAttempt>)
    requires
        ctx.employee_account.conserved(),
    ensures
        ctx.after_attempts(attempts).employee_account.conserved(),
        ctx.after_attempts(attempts).employee_account.total_withdrawn
            == ctx.employee_account.total_withdrawn + ctx.transferred_in(attempts),
        ctx.transferred_in(attempts) >= 0,
        ctx.after_attempts(attempts) == (ClaimTokens {
            employee_account: EmployeeAccount {
                total_withdrawn: ctx.after_attempts(attempts).employee_account.total_withdrawn,
                ..ctx.employee_account
            },
            ..ctx
        }),
    decreases attempts.len(),
{
    if attempts.len() > 0 {
        law_conservation(ctx, attempts.drop_last());
        law_attempt_conserves(ctx.after_attempts(attempts.drop_last()), attempts.last());
    }
}

/// Once a claim for all that can be claimed was made, a further claim at
/// the same time for any amount above nothing is refused: there is nothing
/// to claim.
pub proof fn law_second_claim_refused(
    ctx: ClaimTokens,
    now: i64,
    plan: Option<Seq<u8>>,
    schedule: Option<Seq<u8>>,
    again: u64,
    outcome: TransferOutcome,
)
    requires
        ctx.claim_result(
            ctx.employee_account.claimable_at(now) as u64,
            now,
            plan,
            schedule,
            TransferOutcome::Completed,
        ) is Ok,
        again > 0,
    ensures
        ctx.claimed(ctx.employee_account.claimable_at(now) as u64).employee_account.claimable_at(
            now,
        ) == 0,
        ctx.claimed(ctx.employee_account.claimable_at(now) as u64).claim_result(
            again,
            now,
            plan,
            schedule,
            outcome,
        ) == Err::<u64, ErrorCode>(ErrorCode::NothingToClaim),
{
    ctx.employee_account.lemma_vested_bounds(now);
    ctx.employee_account.lemma_claim_fits(ctx.employee_account.claimable_at(now) as u64, now);
}

/// A claim signed by another than the schedule's beneficiary is refused as
/// unauthorized, whatever else holds and whatever addresses were derived,
/// and leaves the accounts as they were.
pub proof fn law_stranger_refused(
    ctx: ClaimTokens,
    attempt: ClaimAttempt,
    plan: Option<Seq<u8>>,
    schedule: Option<Seq<u8>>,
)
    requires
        ctx.beneficiary != ctx.employee_account.beneficiary,
    ensures
        ctx.claim_result(attempt.amount, attempt.now, plan, schedule, attempt.outcome) == Err::<
            u64,
            ErrorCode,
        >(ErrorCode::Unauthorized),
        ctx.attempt_result(attempt) == Err::<u64, ErrorCode>(ErrorCode::Unauthorized),
        ctx.after_attempt(attempt) == ctx,
{
}

/// The seeds of every company name that a plan can carry fit a derivation,
/// for the plan and for the treasury, whatever the bump seed; and so do the
/// seeds of every schedule.
pub proof fn law_names_within_bound_fit(
    company_name: Seq<char>,
    beneficiary: Address,
    plan: Address,
    bump: u8,
)
    requires
        name_bytes(company_name).len() <= MAX_COMPANY_NAME_LEN,
    ensures
        seeds_fit(with_bump(plan_seeds(name_bytes(company_name)), bump)),
        seeds_fit(with_bump(treasury_seeds(name_bytes(company_name)), bump)),
        seeds_fit(with_bump(employee_seeds(beneficiary@, plan@), bump)),
{
    lemma_name_seeds_fit(PLAN_TAG@, name_bytes(company_name), bump);
    lemma_name_seeds_fit(TREASURY_TAG@, name_bytes(company_name), bump);
    let seeds = with_bump(employee_seeds(beneficiary@, plan@), bump);
    assert(seeds.len() == 4);
    assert(seeds[0] == EMPLOYEE_TAG@);
    assert(seeds[1] == beneficiary@);
    assert(seeds[2] == plan@);
    assert(seeds[3] == seq![bump]);
}

/// Every company name within the bound is registered where the accounts
/// handed in are at the addresses found for it and both places are free.
pub proof fn law_registration_owed(ctx: CreateVestingAccount, company_name: Seq<char>)
    requires
        name_bytes(company_name).len() <= MAX_COMPANY_NAME_LEN,
        found_address(
            found_program_address(plan_seeds(name_bytes(company_name)), ctx.program_id@),
        ) == Some(ctx.vesting_account_key@),
        found_address(
            found_program_address(treasury_seeds(name_bytes(company_name)), ctx.program_id@),
        ) == Some(ctx.treasury_token_account_key@),
        ctx.vesting_account is None,
        ctx.treasury_token_account is None,
    ensures
        ctx.registration(
            company_name,
            found_program_address(plan_seeds(name_bytes(company_name)), ctx.program_id@),
            found_program_address(treasury_seeds(name_bytes(company_name)), ctx.program_id@),
        ) is Ok,
{
}

/// Every beneficiary is enrolled by the plan's owner where the account
/// handed in is at the address found for the pair and the place is free.
pub proof fn law_enrollment_owed(ctx: CreateEmployeeAccount)
    requires
        ctx.vesting_account.owner == ctx.owner,
        found_address(
            found_program_address(
                employee_seeds(ctx.beneficiary@, ctx.vesting_account_key@),
                ctx.program_id@,
            ),
        ) == Some(ctx.employee_account_key@),
        ctx.employee_account is None,
    ensures
        ctx.enrollment(
            found_program_address(
                employee_seeds(ctx.beneficiary@, ctx.vesting_account_key@),
                ctx.program_id@,
            ),
        ) is Ok,
{
}

/// Two different company names give different bytes to derive from, for
/// their plans and for their treasuries, whatever the bump seeds.
pub proof fn law_names_set_seeds_apart(first: Seq<char>, second: Seq<char>, bump: u8, other: u8)
    requires
        first != second,
    ensures
        name_bytes(first) != name_bytes(second),
        seed_bytes(with_bump(plan_seeds(name_bytes(first)), bump)) != seed_bytes(
            with_bump(plan_seeds(name_bytes(second)), other),
        ),
        seed_bytes(with_bump(treasury_seeds(name_bytes(first)), bump)) != seed_bytes(
            with_bump(treasury_seeds(name_bytes(second)), other),
        ),
{
    vstd::utf8::encode_utf8_decode_utf8(first);
    vstd::utf8::encode_utf8_decode_utf8(second);
    lemma_name_seed_bytes(PLAN_TAG@, name_bytes(first), bump);
    lemma_name_seed_bytes(PLAN_TAG@, name_bytes(second), other);
    lemma_name_seed_bytes(TREASURY_TAG@, name_bytes(first), bump);
    lemma_name_seed_bytes(TREASURY_TAG@, name_bytes(second), other);
    lemma_middles_apart(PLAN_TAG@, name_bytes(first), name_bytes(second), seq![bump], seq![other]);
    lemma_middles_apart(
        TREASURY_TAG@,
        name_bytes(first),
        name_bytes(second),
        seq![bump],
        seq![other],
    );
}

/// No plan, no treasury and no schedule are derived from the same bytes as
/// a record of another kind: the tags set them apart.
pub proof fn law_tags_set_kinds_apart(
    plan_name: Seq<char>,
    treasury_name: Seq<char>,
    beneficiary: Address,
    plan: Address,
    plan_bump: u8,
    treasury_bump: u8,
    schedule_bump: u8,
)
    ensures
        seed_bytes(with_bump(plan_seeds(name_bytes(plan_name)), plan_bump)) != seed_bytes(
            with_bump(treasury_seeds(name_bytes(treasury_name)), treasury_bump),
        ),
        seed_bytes(with_bump(plan_seeds(name_bytes(plan_name)), plan_bump)) != seed_bytes(
            with_bump(employee_seeds(beneficiary@, plan@), schedule_bump),
        ),
        seed_bytes(with_bump(treasury_seeds(name_bytes(treasury_name)), treasury_bump))
            != seed_bytes(with_bump(employee_seeds(beneficiary@, plan@), schedule_bump)),
{
    lemma_name_seed_bytes(PLAN_TAG@, name_bytes(plan_name), plan_bump);
    lemma_name_seed_bytes(TREASURY_TAG@, name_bytes(treasury_name), treasury_bump);
    lemma_employee_seed_bytes(beneficiary@, plan@, schedule_bump);
    let of_plan = PLAN_TAG@ + name_bytes(plan_name) + seq![plan_bump];
    let of_treasury = TREASURY_TAG@ + name_bytes(treasury_name) + seq![treasury_bump];
    let of_schedule = EMPLOYEE_TAG@ + beneficiary@ + plan@ + seq![schedule_bump];
    assert(of_plan[8] == PLAN_TAG@[8] == 112);
    assert(of_treasury[8] == TREASURY_TAG@[8] == 116);
    assert(of_plan[0] == PLAN_TAG@[0] == 118);
    assert(of_treasury[0] == TREASURY_TAG@[0] == 118);
    assert(of_schedule[0] == EMPLOYEE_TAG@[0] == 101);
}

/// Two different pairs of beneficiary and plan give different bytes to
/// derive their schedules from, whatever the bump seeds.
pub proof fn law_pairs_set_seeds_apart(
    beneficiary: Address,
    plan: Address,
    other_beneficiary: Address,
    other_plan: Address,
    bump: u8,
    other_bump: u8,
)
    requires
        beneficiary != other_beneficiary || plan != other_plan,
    ensures
        seed_bytes(with_bump(employee_seeds(beneficiary@, plan@), bump)) != seed_bytes(
            with_bump(employee_seeds(other_beneficiary@, other_plan@), other_bump),
        ),
{
    lemma_employee_seed_bytes(beneficiary@, plan@, bump);
    lemma_employee_seed_bytes(other_beneficiary@, other_plan@, other_bump);
    if beneficiary@ == other_beneficiary@ {
        lemma_address_by_bytes(beneficiary, other_beneficiary);
    }
    if plan@ == other_plan@ {
        lemma_address_by_bytes(plan, other_plan);
    }
    if beneficiary@ + plan@ == other_beneficiary@ + other_plan@ {
        assert(beneficiary@ =~= (beneficiary@ + plan@).subrange(0, 32));
        assert(other_beneficiary@ =~= (other_beneficiary@ + other_plan@).subrange(0, 32));
        assert(plan@ =~= (beneficiary@ + plan@).subrange(32, 64));
        assert(other_plan@ =~= (other_beneficiary@ + other_plan@).subrange(32, 64));
    }
    lemma_middles_apart(
        EMPLOYEE_TAG@,
        beneficiary@ + plan@,
        other_beneficiary@ + other_plan@,
        seq![bump],
        seq![other_bump],
    );
    assert(EMPLOYEE_TAG@ + beneficiary@ + plan@ + seq![bump] =~= EMPLOYEE_TAG@ + (beneficiary@
        + plan@) + seq![bump]);
    assert(EMPLOYEE_TAG@ + other_beneficiary@ + other_plan@ + seq![other_bump] =~= EMPLOYEE_TAG@
        + (other_beneficiary@ + other_plan@) + seq![other_bump]);
}

/// Byte strings that differ between the same prefix and suffixes of one
/// length differ as wholes.
proof fn lemma_middles_apart(
    prefix: Seq<u8>,
    middle: Seq<u8>,
    other: Seq<u8>,
    suffix: Seq<u8>,
    other_suffix: Seq<u8>,
)
    requires
        middle != other,
        suffix.len() == other_suffix.len(),
    ensures
        prefix + middle + suffix != prefix + other + other_suffix,
{
    let whole = prefix + middle + suffix;
    let other_whole = prefix + other + other_suffix;
    if whole == other_whole {
        assert(whole.len() == other_whole.len());
        assert(middle.len() == other.len());
        assert forall|i: int| 0 <= i < middle.len() implies middle[i] == other[i] by {
            assert(whole[prefix.len() + i] == middle[i]);
            assert(other_whole[prefix.len() + i] == other[i]);
        }
        assert(middle =~= other);
    }
}

/// Under one program a company name has one plan address and one treasury
/// address: wherever a registration under the name gets past the check of
/// its addresses, they are the same.
pub proof fn law_one_plan_per_name(
    first: CreateVestingAccount,
    second: CreateVestingAccount,
    company_name: Seq<char>,
)
    requires
        first.program_id == second.program_id,
        first.registration(
            company_name,
            found_program_address(plan_seeds(name_bytes(company_name)), first.program_id@),
            found_program_address(treasury_seeds(name_bytes(company_name)), first.program_id@),
        ) is Ok,
        second.registration(
            company_name,
            found_program_address(plan_seeds(name_bytes(company_name)), second.program_id@),
            found_program_address(treasury_seeds(name_bytes(company_name)), second.program_id@),
        ) matches Err(refusal) ==> refusal == ErrorCode::DuplicatePlan,
    ensures
        first.vesting_account_key == second.vesting_account_key,
        first.treasury_token_account_key == second.treasury_token_account_key,
{
    lemma_address_by_bytes(first.vesting_account_key, second.vesting_account_key);
    lemma_address_by_bytes(first.treasury_token_account_key, second.treasury_token_account_key);
}

/// Under one program a beneficiary has one schedule address under a plan:
/// wherever an enrollment of the pair gets past the check of its address,
/// it is the same.
pub proof fn law_one_schedule_per_pair(first: CreateEmployeeAccount, second: CreateEmployeeAccount)
    requires
        first.program_id == second.program_id,
        first.beneficiary == second.beneficiary,
        first.vesting_account_key == second.vesting_account_key,
        first.enrollment(
            found_program_address(
                employee_seeds(first.beneficiary@, first.vesting_account_key@),
                first.program_id@,
            ),
        ) is Ok,
        second.enrollment(
            found_program_address(
                employee_seeds(second.beneficiary@, second.vesting_account_key@),
                second.program_id@,
            ),
        ) matches Err(refusal) ==> refusal == ErrorCode::DuplicateSchedule,
    ensures
        first.employee_account_key == second.employee_account_key,
{
    lemma_address_by_bytes(first.employee_account_key, second.employee_account_key);
}

/// A plan as `create_vesting_account` stores it and a schedule as
/// `create_employee_account` stores it under that plan are accepted by a
/// claim that the beneficiary signs on the plan's treasury and asset, and
/// the transfer then ordered is signed under seeds that derive the
/// treasury's address.
pub proof fn law_registered_accounts_match(
    registration: CreateVestingAccount,
    enrollment: CreateEmployeeAccount,
    ctx: ClaimTokens,
    amount: u64,
    order: TransferOrder,
)
    requires
        registration.derives_again(),
        enrollment.derives_again(),
        registration.vesting_account == Some(ctx.vesting_account),
        registration.vesting_account_key == ctx.vesting_account_key,
        registration.program_id == ctx.program_id,
        enrollment.employee_account == Some(ctx.employee_account),
        enrollment.employee_account_key == ctx.employee_account_key,
        enrollment.program_id == ctx.program_id,
        ctx.employee_account.beneficiary == ctx.beneficiary,
        ctx.employee_account.vesting_account == ctx.vesting_account_key,
        ctx.vesting_account.treasury_token_account == ctx.treasury_token_account,
        ctx.vesting_account.mint == ctx.mint,
        ctx.orders(amount, order),
    ensures
        ctx.accounts_match(ctx.plan_derived(), ctx.schedule_derived()),
        program_address(order.signer_seeds.deep_view(), ctx.program_id@) == Some(order.authority@),
{
}

} // verus!
