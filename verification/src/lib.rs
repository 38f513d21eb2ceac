//! Token vesting ledger: a company registers a vesting plan with a treasury,
//! attaches a linear vesting schedule to each employee, and every employee
//! claims what has vested and was not yet withdrawn.
//!
//! Plans, treasuries and schedules live at addresses derived from their keys,
//! so each is found again, and told from a forgery, by deriving the address
//! once more. The ledger decides and books; moving the tokens is left to the
//! token program, which is handed a `TransferOrder` and answers with a
//! `TransferOutcome`.

pub mod address;
pub mod claim;
pub mod enrollment;
pub mod error;
pub mod laws;
pub mod pda;
pub mod plan;
pub mod schedule;

pub use address::Address;
pub use claim::{authorize_claim, claim_tokens, ClaimTokens, TransferOrder, TransferOutcome};
pub use enrollment::{create_employee_account, CreateEmployeeAccount};
pub use error::ErrorCode;
pub use pda::{
    derive_employee_address, derive_plan_address, find_employee_address, find_plan_address,
    find_treasury_address, head_seed, tail_seed, treasury_signer_seeds, EMPLOYEE_TAG,
    MAX_SEEDS, MAX_SEED_LEN, PLAN_TAG, TREASURY_TAG,
};
pub use plan::{
    create_vesting_account, CreateVestingAccount, TokenAccount, VestingAccount,
    MAX_COMPANY_NAME_LEN,
};
pub use schedule::EmployeeAccount;
