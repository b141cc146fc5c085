//! The request that sets the share value.

use crate::account::{plan_result_view, Account, Step, StepView, Sysvars};
use crate::address::Address;
use crate::errors::FundError;
use crate::state::fund_account::{update_share_value_spec, FundAccount};
use vstd::prelude::*;

verus! {

/// What the request returns: `NotEnoughAccountKeys` unless there are three
/// accounts, else what setting the share value returns for them.
pub open spec fn update_request_spec(
    program_id: Address,
    accounts: Seq<Account>,
    new_share_value: u64,
    fund_name: Seq<char>,
    sysvars: Sysvars,
) -> Result<Seq<StepView>, FundError> {
    if accounts.len() != 3 {
        Err(FundError::NotEnoughAccountKeys)
    } else {
        update_share_value_spec(
            program_id,
            accounts[0],
            accounts[1],
            accounts[2],
            new_share_value,
            fund_name,
            sysvars,
        )
    }
}

/// Sets the share value of a fund. The accounts are, in this order: the
/// custodian, the manager, the fund record.
pub fn update_share_value(
    program_id: &Address,
    accounts: &[Account],
    new_share_value: u64,
    fund_name: String,
    sysvars: &Sysvars,
) -> (r: Result<Vec<Step>, FundError>)
    ensures
        plan_result_view(r) == update_request_spec(
            *program_id,
            accounts@,
            new_share_value,
            fund_name@,
            *sysvars,
        ),
{
    if accounts.len() != 3 {
        return Err(FundError::NotEnoughAccountKeys);
    }
    FundAccount::update_share_value(
        program_id,
        &accounts[0],
        &accounts[1],
        &accounts[2],
        new_share_value,
        fund_name,
        sysvars,
    )
}

} // verus!
