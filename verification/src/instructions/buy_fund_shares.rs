//! The request that sells shares.

use crate::account::{plan_result_view, Account, Step, StepView};
use crate::address::Address;
use crate::errors::FundError;
use crate::state::fund_account::{buy_fund_shares_spec, FundAccount};
use vstd::prelude::*;

verus! {

/// What the request returns: `NotEnoughAccountKeys` unless there are eight
/// accounts, else what buying shares returns for them.
pub open spec fn buy_request_spec(
    program_id: Address,
    accounts: Seq<Account>,
    amount_in_fiat: u64,
    fund_name: Seq<char>,
) -> Result<Seq<StepView>, FundError> {
    if accounts.len() != 8 {
        Err(FundError::NotEnoughAccountKeys)
    } else {
        buy_fund_shares_spec(
            program_id,
            accounts[0],
            accounts[1],
            accounts[2],
            accounts[3],
            accounts[4],
            accounts[5],
            accounts[6],
            accounts[7],
            amount_in_fiat,
            fund_name,
        )
    }
}

/// Sells shares of a fund. The accounts are, in this order: the custodian,
/// the fund record, the share mint, the buyer, the buyer's token account,
/// the system program, the token program, the associated-token-account
/// program.
pub fn buy_fund_shares(
    program_id: &Address,
    accounts: &[Account],
    amount_in_fiat: u64,
    fund_name: String,
) -> (r: Result<Vec<Step>, FundError>)
    ensures
        plan_result_view(r) == buy_request_spec(
            *program_id,
            accounts@,
            amount_in_fiat,
            fund_name@,
        ),
{
    if accounts.len() != 8 {
        return Err(FundError::NotEnoughAccountKeys);
    }
    FundAccount::buy_fund_shares(
        program_id,
        &accounts[0],
        &accounts[1],
        &accounts[2],
        &accounts[3],
        &accounts[4],
        &accounts[5],
        &accounts[6],
        &accounts[7],
        amount_in_fiat,
        fund_name.as_str(),
    )
}

} // verus!
