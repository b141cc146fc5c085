//! The entry of the program: decode the request, then carry it out.

use crate::account::{plan_result_view, Account, Step, StepView, Sysvars};
use crate::address::Address;
use crate::errors::FundError;
use crate::instructions::buy_fund_shares::{buy_fund_shares, buy_request_spec};
use crate::instructions::create_fund::{init_fund, init_fund_spec};
use crate::instructions::process_shares_redemption::{
    process_shares_redemption, process_shares_redemption_spec,
};
use crate::instructions::redeem_shares::{redeem_shares, redeem_shares_spec};
use crate::instructions::update_share_value::{update_request_spec, update_share_value};
use crate::instructions::{instruction_parse, Instructions, InstructionsView};
use vstd::prelude::*;

verus! {

/// What a request returns: `InvalidInstructionData` where the bytes hold no
/// request, else what the operation that they name returns.
pub open spec fn process_instruction_spec(
    program_id: Address,
    accounts: Seq<Account>,
    instruction_data: Seq<u8>,
    sysvars: Sysvars,
) -> Result<Seq<StepView>, FundError> {
    match instruction_parse(instruction_data) {
        None => Err(FundError::InvalidInstructionData),
        Some(InstructionsView::InitFundAccount { share_value, fund_name }) => init_fund_spec(
            program_id,
            accounts,
            fund_name,
            share_value,
            sysvars,
        ),
        Some(InstructionsView::UpdateShareValue { new_share_value, fund_name }) => {
            update_request_spec(program_id, accounts, new_share_value, fund_name, sysvars)
        },
        Some(InstructionsView::BuyFundShares { amount_in_fiat, fund_name }) => buy_request_spec(
            program_id,
            accounts,
            amount_in_fiat,
            fund_name,
        ),
        Some(InstructionsView::RedeemShares { shares_to_redeem, fund_name }) => {
            redeem_shares_spec(program_id, accounts, shares_to_redeem, fund_name, sysvars)
        },
        Some(InstructionsView::ProcessSharesRedemption { amount_payed, fund_name }) => {
            process_shares_redemption_spec(program_id, accounts, amount_payed, fund_name, sysvars)
        },
    }
}

/// Carries out a request: decodes it, checks it against the accounts, and
/// returns the steps that the host has to take. On any error no step is
/// returned, so nothing changes.
pub fn process_instruction(
    program_id: &Address,
    accounts: &[Account],
    instruction_data: &[u8],
    sysvars: &Sysvars,
) -> (r: Result<Vec<Step>, FundError>)
    ensures
        plan_result_view(r) == process_instruction_spec(
            *program_id,
            accounts@,
            instruction_data@,
            *sysvars,
        ),
{
    match Instructions::unpack(instruction_data)? {
        Instructions::InitFundAccount { share_value, fund_name } => init_fund(
            program_id,
            accounts,
            fund_name,
            share_value,
            sysvars,
        ),
        Instructions::UpdateShareValue { new_share_value, fund_name } => update_share_value(
            program_id,
            accounts,
            new_share_value,
            fund_name,
            sysvars,
        ),
        Instructions::BuyFundShares { amount_in_fiat, fund_name } => buy_fund_shares(
            program_id,
            accounts,
            amount_in_fiat,
            fund_name,
        ),
        Instructions::RedeemShares { shares_to_redeem, fund_name } => redeem_shares(
            program_id,
            accounts,
            shares_to_redeem,
            fund_name,
            sysvars,
        ),
        Instructions::ProcessSharesRedemption { amount_payed, fund_name } => {
            process_shares_redemption(program_id, accounts, amount_payed, fund_name, sysvars)
        },
    }
}

} // verus!
