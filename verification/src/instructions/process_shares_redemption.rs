//! The request that settles a redemption.

use crate::account::{plan_result_view, Account, Step, StepView, Sysvars};
use crate::address::Address;
use crate::errors::FundError;
use crate::state::share_redemption::{process_share_redemption_spec, ShareRedemption};
use vstd::prelude::*;

verus! {

/// What the request returns: `NotEnoughAccountKeys` unless there are eight
/// accounts, else what settling the redemption returns for them.
pub open spec fn process_shares_redemption_spec(
    program_id: Address,
    accounts: Seq<Account>,
    amount_payed: u64,
    fund_name: Seq<char>,
    sysvars: Sysvars,
) -> Result<Seq<StepView>, FundError> {
    if accounts.len() != 8 {
        Err(FundError::NotEnoughAccountKeys)
    } else {
        process_share_redemption_spec(
            program_id,
            accounts[0],
            accounts[1],
            accounts[2],
            accounts[3],
            accounts[4],
            accounts[5],
            accounts[6],
            accounts[7],
            amount_payed,
            fund_name,
            sysvars,
        )
    }
}

/// Settles a redemption. The accounts are, in this order: the custodian,
/// the fund record, the share mint, the redemption record, the vault, the
/// investor, the token program, the system program.
pub fn process_shares_redemption(
    program_id: &Address,
    accounts: &[Account],
    amount_payed: u64,
    fund_name: String,
    sysvars: &Sysvars,
) -> (r: Result<Vec<Step>, FundError>)
    ensures
        plan_result_view(r) == process_shares_redemption_spec(
            *program_id,
            accounts@,
            amount_payed,
            fund_name@,
            *sysvars,
        ),
{
    if accounts.len() != 8 {
        return Err(FundError::NotEnoughAccountKeys);
    }
    ShareRedemption::process_share_redemption(
        program_id,
        &accounts[0],
        &accounts[1],
        &accounts[2],
        &accounts[3],
        &accounts[4],
        &accounts[5],
        &accounts[6],
        &accounts[7],
        amount_payed,
        fund_name,
        sysvars,
    )
}

} // verus!
