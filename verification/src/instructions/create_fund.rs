//! The request that creates a fund.

use crate::account::{plan_result_view, Account, Step, StepView, Sysvars};
use crate::address::Address;
use crate::errors::FundError;
use crate::state::fund_account::{initialize_fund_spec, FundAccount};
use vstd::prelude::*;

verus! {

/// What the request returns: `NotEnoughAccountKeys` unless there are nine
/// accounts, else what creating the fund returns for them.
pub open spec fn init_fund_spec(
    program_id: Address,
    accounts: Seq<Account>,
    fund_name: Seq<char>,
    share_value: u64,
    sysvars: Sysvars,
) -> Result<Seq<StepView>, FundError> {
    if accounts.len() != 9 {
        Err(FundError::NotEnoughAccountKeys)
    } else {
        initialize_fund_spec(
            program_id,
            accounts[0],
            accounts[1],
            accounts[2],
            accounts[3],
            accounts[4],
            accounts[5],
            accounts[6],
            accounts[7],
            accounts[8],
            share_value,
            fund_name,
            sysvars,
        )
    }
}

/// Creates a fund. The accounts are, in this order: the custodian, the
/// manager, the fund record, the share mint, the vault, the system program,
/// the token program, the associated-token-account program, the rent
/// sysvar.
pub fn init_fund(
    program_id: &Address,
    accounts: &[Account],
    fund_name: String,
    share_value: u64,
    sysvars: &Sysvars,
) -> (r: Result<Vec<Step>, FundError>)
    ensures
        plan_result_view(r) == init_fund_spec(
            *program_id,
            accounts@,
            fund_name@,
            share_value,
            *sysvars,
        ),
{
    if accounts.len() != 9 {
        return Err(FundError::NotEnoughAccountKeys);
    }
    FundAccount::initialize_fund(
        program_id,
        &accounts[0],
        &accounts[1],
        &accounts[2],
        &accounts[3],
        &accounts[4],
        &accounts[5],
        &accounts[6],
        &accounts[7],
        &accounts[8],
        share_value,
        fund_name.as_str(),
        sysvars,
    )
}

} // verus!
