//! The request that hands shares in for redemption.

use crate::account::{plan_result_view, Account, Step, StepView, Sysvars};
use crate::address::Address;
use crate::errors::FundError;
use crate::state::share_redemption::{create_share_redemption_spec, ShareRedemption};
use vstd::prelude::*;

verus! {

/// What the request returns: `NotEnoughAccountKeys` unless there are nine
/// accounts, else what handing the shares in returns for them.
pub open spec fn redeem_shares_spec(
    program_id: Address,
    accounts: Seq<Account>,
    shares_to_redeem: u64,
    fund_name: Seq<char>,
    sysvars: Sysvars,
) -> Result<Seq<StepView>, FundError> {
    if accounts.len() != 9 {
        Err(FundError::NotEnoughAccountKeys)
    } else {
        create_share_redemption_spec(
            program_id,
            accounts[0],
            accounts[1],
            accounts[4],
            accounts[2],
            accounts[3],
            accounts[5],
            accounts[6],
            accounts[7],
            accounts[8],
            fund_name,
            shares_to_redeem,
            sysvars,
        )
    }
}

/// Hands shares in for redemption. The accounts are, in this order: the
/// custodian, the fund record, the share mint, the redemption record, the
/// vault, the investor, the investor's token account, the token program,
/// the system program.
pub fn redeem_shares(
    program_id: &Address,
    accounts: &[Account],
    shares_to_redeem: u64,
    fund_name: String,
    sysvars: &Sysvars,
) -> (r: Result<Vec<Step>, FundError>)
    ensures
        plan_result_view(r) == redeem_shares_spec(
            *program_id,
            accounts@,
            shares_to_redeem,
            fund_name@,
            *sysvars,
        ),
{
    if accounts.len() != 9 {
        return Err(FundError::NotEnoughAccountKeys);
    }
    ShareRedemption::create_share_redemption(
        program_id,
        &accounts[0],
        &accounts[1],
        &accounts[4],
        &accounts[2],
        &accounts[3],
        &accounts[5],
        &accounts[6],
        &accounts[7],
        &accounts[8],
        fund_name,
        shares_to_redeem,
        sysvars,
    )
}

} // verus!
