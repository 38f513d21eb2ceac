//! Vesting plans: one per company, found by the company's name, each with a
//! treasury that only the plan's own derived address can spend from.

use vstd::prelude::*;
use crate::address::{lemma_address_by_bytes, Address};
use crate::error::ErrorCode;
use crate::pda::{
    find_plan_address, find_treasury_address, found_address, found_bump, found_program_address,
    found_view, lemma_found_derives, name_bytes, plan_seeds, program_address, treasury_seeds,
    with_bump,
};

verus! {

/// The longest company name, in bytes, that a plan can carry.
pub const MAX_COMPANY_NAME_LEN: usize = 50;

/// A company's vesting plan.
#[derive(Clone, Debug, PartialEq, Eq)]
pub struct VestingAccount {
    /// Who may register employees under the plan.
    pub owner: Address,
    /// The asset that vests.
    pub mint: Address,
    /// The account that holds the tokens not yet handed out.
    pub treasury_token_account: Address,
    /// The name from which the plan and its treasury get their addresses.
    pub company_name: String,
    /// The bump seed of the treasury's address.
    pub treasury_bump: u8,
    /// The bump seed of the plan's own address.
    pub bump: u8,
}

/// What the ledger knows of an account that holds tokens.
#[derive(Clone, Copy, Debug, PartialEq, Eq)]
pub struct TokenAccount {
    /// The asset held.
    pub mint: Address,
    /// The address that may spend from the account.
    pub authority: Address,
    /// The tokens held.
    pub amount: u64,
}

/// The accounts of a plan's registration.
#[derive(Clone, Debug, PartialEq, Eq)]
pub struct CreateVestingAccount {
    /// The program under whose address plans and treasuries are derived.
    pub program_id: Address,
    /// Who asks for the plan, and will own it.
    pub signer: Address,
    /// Where the plan is to be stored.
    pub vesting_account_key: Address,
    /// The plan stored there, if any.
    pub vesting_account: Option<VestingAccount>,
    /// The asset that is to vest.
    pub mint: Address,
    /// Where the treasury is to be opened.
    pub treasury_token_account_key: Address,
    /// The treasury open there, if any.
    pub treasury_token_account: Option<TokenAccount>,
}

impl CreateVestingAccount {
    /// Whether a plan named `company_name` can be registered in these
    /// accounts, given what the searches for the plan's and for the
    /// treasury's address found; and if not, why. The name is judged first,
    /// then the addresses, then whether the places are free.
    pub open spec fn registration(
        &self,
        company_name: Seq<char>,
        plan: Option<(Seq<u8>, u8)>,
        treasury: Option<(Seq<u8>, u8)>,
    ) -> Result<(), ErrorCode> {
        if name_bytes(company_name).len() > MAX_COMPANY_NAME_LEN {
            Err(ErrorCode::NameTooLong)
        } else if found_address(plan) != Some(self.vesting_account_key@) || found_address(treasury)
            != Some(self.treasury_token_account_key@) {
            Err(ErrorCode::Unauthorized)
        } else if self.vesting_account is Some || self.treasury_token_account is Some {
            Err(ErrorCode::DuplicatePlan)
        } else {
            Ok(())
        }
    }

    /// The accounts after the plan named `company_name` was registered with
    /// the given bump seeds: the plan belongs to the signer, and the
    /// treasury is empty and spends under its own address.
    pub open spec fn registered(&self, company_name: String, bump: u8, treasury_bump: u8) -> Self {
        CreateVestingAccount {
            vesting_account: Some(
                VestingAccount {
                    owner: self.signer,
                    mint: self.mint,
                    treasury_token_account: self.treasury_token_account_key,
                    company_name,
                    treasury_bump,
                    bump,
                },
            ),
            treasury_token_account: Some(
                TokenAccount {
                    mint: self.mint,
                    authority: self.treasury_token_account_key,
                    amount: 0,
                },
            ),
            ..*self
        }
    }

    /// The plan stored in these accounts carries bump seeds under which its
    /// own address and its treasury's derive again from its name.
    pub open spec fn derives_again(&self) -> bool {
        self.vesting_account matches Some(plan) && {
            &&& program_address(
                with_bump(plan_seeds(name_bytes(plan.company_name@)), plan.bump),
                self.program_id@,
            ) == Some(self.vesting_account_key@)
            &&& program_address(
                with_bump(treasury_seeds(name_bytes(plan.company_name@)), plan.treasury_bump),
                self.program_id@,
            ) == Some(plan.treasury_token_account@)
        }
    }

    /// Registers the plan named `company_name`, given what the searches for
    /// the plan's and the treasury's address found. On a refusal nothing
    /// changes.
    pub fn register(
        &mut self,
        company_name: String,
        plan: Option<(Address, u8)>,
        treasury: Option<(Address, u8)>,
    ) -> (done: Result<(), ErrorCode>)
        ensures
            done == old(self).registration(company_name@, found_view(plan), found_view(treasury)),
            done is Ok ==> *final(self) == old(self).registered(
                company_name,
                found_bump(found_view(plan)),
                found_bump(found_view(treasury)),
            ),
            done is Err ==> *final(self) == *old(self),
    {
        if company_name.as_str().as_bytes().len() > MAX_COMPANY_NAME_LEN {
            return Err(ErrorCode::NameTooLong);
        }
        let (plan_key, bump) = match plan {
            Some(found) => found,
            None => { return Err(ErrorCode::Unauthorized); },
        };
        let (treasury_key, treasury_bump) = match treasury {
            Some(found) => found,
            None => { return Err(ErrorCode::Unauthorized); },
        };
        proof {
            if plan_key@ == self.vesting_account_key@ {
                lemma_address_by_bytes(plan_key, self.vesting_account_key);
            }
            if treasury_key@ == self.treasury_token_account_key@ {
                lemma_address_by_bytes(treasury_key, self.treasury_token_account_key);
            }
        }
        if plan_key != self.vesting_account_key || treasury_key != self.treasury_token_account_key {
            return Err(ErrorCode::Unauthorized);
        }
        if self.vesting_account.is_some() || self.treasury_token_account.is_some() {
            return Err(ErrorCode::DuplicatePlan);
        }
        self.vesting_account = Some(
            VestingAccount {
                owner: self.signer,
                mint: self.mint,
                treasury_token_account: self.treasury_token_account_key,
                company_name,
                treasury_bump,
                bump,
            },
        );
        self.treasury_token_account = Some(
            TokenAccount { mint: self.mint, authority: self.treasury_token_account_key, amount: 0 },
        );
        Ok(())
    }
}

/// Registers a company's vesting plan and opens its treasury. The plan's
/// and the treasury's addresses are searched from the company name under
/// the program; the accounts handed in must be at those addresses.
///
/// The call is refused with `NameTooLong` for a name of more than
/// `MAX_COMPANY_NAME_LEN` bytes; else with `Unauthorized` where a search
/// finds no address or another than that of the account handed in; else
/// with `DuplicatePlan` where the plan or the treasury is there already. On
/// a refusal nothing changes. Else the plan is stored for the signer with
/// the bump seeds that were found, under which both addresses derive again.
///
/// The seeds of every name that is not too long fit a derivation
/// (`law_names_within_bound_fit`), so none is refused for its length.
pub fn create_vesting_account(ctx: &mut CreateVestingAccount, company_name: String) -> (done:
    Result<(), ErrorCode>)
    ensures
        done == old(ctx).registration(
            company_name@,
            found_program_address(plan_seeds(name_bytes(company_name@)), old(ctx).program_id@),
            found_program_address(treasury_seeds(name_bytes(company_name@)), old(ctx).program_id@),
        ),
        done is Ok ==> *final(ctx) == old(ctx).registered(
            company_name,
            found_bump(
                found_program_address(plan_seeds(name_bytes(company_name@)), old(ctx).program_id@),
            ),
            found_bump(
                found_program_address(
                    treasury_seeds(name_bytes(company_name@)),
                    old(ctx).program_id@,
                ),
            ),
        ),
        done is Ok ==> final(ctx).derives_again(),
        done is Err ==> *final(ctx) == *old(ctx),
{
    proof {
        lemma_found_derives(plan_seeds(name_bytes(company_name@)), ctx.program_id@);
        lemma_found_derives(treasury_seeds(name_bytes(company_name@)), ctx.program_id@);
    }
    let plan = find_plan_address(&ctx.program_id, &company_name);
    let treasury = find_treasury_address(&ctx.program_id, &company_name);
    ctx.register(company_name, plan, treasury)
}

} // verus!
