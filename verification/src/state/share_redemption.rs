//! The record of a redemption, and the two phases of a redemption: handing
//! shares into escrow, and settling once the fiat has been paid.
//!
//! A redemption is in one of three states. Before the investor asks, there
//! is no record. Asking creates the record and moves the shares into the
//! fund's vault: the redemption is in escrow. Settling burns the shares and
//! retires the record. There is at most one record per fund and investor.

use crate::account::{
    after_step, empty_plan, invoke_view, no_keys, no_seeds, plan_result_view, plan_view, push_key, push_step,
    release_view, store_view, Account, Step, StepView, Sysvars,
};
use crate::address::{
    address_view, associated_token_address, check_derived, check_found, check_rebuilt,
    created_view, derivation_error, find_associated_token_address, find_mint_address,
    find_redemption_address, found_key, found_within_limits, found_view, fund_seeds,
    fund_signer_seeds, mint_seeds, rebuilt_error, redemption_seeds, redemption_signer_seeds,
    system_program_bytes, system_program_id, token_program_bytes, token_program_id, with_bump,
    Address,
};
use crate::codec::{
    bool_byte, i64_bytes, i64_from_bytes, lemma_i64_bits, put_address, put_bool, put_i64,
    put_u64, read_address, read_i64, read_u64,
};
use crate::errors::{CustomError, FundError};
use crate::invoke::{
    burn, burn_data, create_account, create_account_view, signed_accounts, token_view, transfer,
    transfer_data,
};
use crate::state::fund_account::{
    fund_parse, fund_result_view, fund_unpacked, rebuilt_fund_address, FundAccount,
    FundAccountView,
};
use crate::utils::{fixed_point_multiply_checked, multiply_spec};
use vstd::bytes::{
    lemma_auto_spec_u64_to_from_le_bytes, spec_u64_from_le_bytes, spec_u64_to_le_bytes,
};
use vstd::prelude::*;
use vstd::utf8::encode_utf8;

verus! {

/// The record of shares that an investor has handed in and has not yet been
/// paid for.
#[derive(Debug, Clone, Copy, PartialEq, Eq)]
pub struct ShareRedemption {
    /// Set once the record has been created.
    pub is_initialized: bool,
    /// The bump of the record's own address.
    pub bump_seed: u8,
    /// The fund whose shares are redeemed.
    pub fund_account: Address,
    /// The investor who redeems them.
    pub investor: Address,
    /// The shares in escrow.
    pub shares_amount: u64,
    /// The share value at the time of the request. The payout goes by it,
    /// whatever the share value has become since.
    pub share_value: u64,
    /// When the request was made.
    pub created_timestamp: i64,
}

/// A [`ShareRedemption`] as a mathematical value.
pub struct ShareRedemptionView {
    pub is_initialized: bool,
    pub bump_seed: u8,
    pub fund_account: Seq<u8>,
    pub investor: Seq<u8>,
    pub shares_amount: u64,
    pub share_value: u64,
    pub created_timestamp: i64,
}

impl ShareRedemptionView {
    /// Both addresses of the record have the length of an address.
    pub open spec fn wf(self) -> bool {
        &&& self.fund_account.len() == 32
        &&& self.investor.len() == 32
    }
}

impl View for ShareRedemption {
    type V = ShareRedemptionView;

    open spec fn view(&self) -> ShareRedemptionView {
        ShareRedemptionView {
            is_initialized: self.is_initialized,
            bump_seed: self.bump_seed,
            fund_account: self.fund_account@,
            investor: self.investor@,
            shares_amount: self.shares_amount,
            share_value: self.share_value,
            created_timestamp: self.created_timestamp,
        }
    }
}

/// The bytes of a redemption record: the flag, the bump, the fund, the
/// investor, the shares, the share value and the time of the request.
pub open spec fn redemption_bytes(v: ShareRedemptionView) -> Seq<u8> {
    seq![bool_byte(v.is_initialized), v.bump_seed] + v.fund_account + v.investor
        + spec_u64_to_le_bytes(v.shares_amount) + spec_u64_to_le_bytes(v.share_value) + i64_bytes(
        v.created_timestamp,
    )
}

/// The redemption record that bytes hold at their start, if they hold one.
pub open spec fn redemption_parse(data: Seq<u8>) -> Option<ShareRedemptionView> {
    if data.len() < 90 || data[0] > 1 {
        None
    } else {
        Some(
            ShareRedemptionView {
                is_initialized: data[0] == 1,
                bump_seed: data[1],
                fund_account: data.subrange(2, 34),
                investor: data.subrange(34, 66),
                shares_amount: spec_u64_from_le_bytes(data.subrange(66, 74)),
                share_value: spec_u64_from_le_bytes(data.subrange(74, 82)),
                created_timestamp: i64_from_bytes(data.subrange(82, 90)),
            },
        )
    }
}

/// What unpacking returns for what the bytes hold.
pub open spec fn redemption_unpacked(parsed: Option<ShareRedemptionView>) -> Result<
    ShareRedemptionView,
    FundError,
> {
    match parsed {
        Some(v) => Ok(v),
        None => Err(FundError::BorshIoError),
    }
}

/// A record, or the error in its place, as a mathematical value.
pub open spec fn redemption_result_view(r: Result<ShareRedemption, FundError>) -> Result<
    ShareRedemptionView,
    FundError,
> {
    match r {
        Ok(record) => Ok(record@),
        Err(e) => Err(e),
    }
}

/// The bytes of a redemption record have the length of one and read back as
/// the record, whatever follows them.
pub proof fn lemma_redemption_round_trip(v: ShareRedemptionView, rest: Seq<u8>)
    requires
        v.wf(),
    ensures
        redemption_bytes(v).len() == 90,
        redemption_parse(redemption_bytes(v) + rest) == Some(v),
{
    lemma_auto_spec_u64_to_from_le_bytes();
    lemma_i64_bits(v.created_timestamp);
    let data = redemption_bytes(v) + rest;
    assert(data.subrange(2, 34) =~= v.fund_account);
    assert(data.subrange(34, 66) =~= v.investor);
    assert(data.subrange(66, 74) =~= spec_u64_to_le_bytes(v.shares_amount));
    assert(data.subrange(74, 82) =~= spec_u64_to_le_bytes(v.share_value));
    assert(data.subrange(82, 90) =~= i64_bytes(v.created_timestamp));
    assert(data[0] == bool_byte(v.is_initialized));
    assert(data[1] == v.bump_seed);
}

/// An account without data holds no record.
pub proof fn lemma_no_data_no_record()
    ensures
        redemption_parse(Seq::<u8>::empty()) is None,
        fund_parse(Seq::<u8>::empty()) is None,
{
}

impl ShareRedemption {
    /// The space that a redemption record takes.
    pub const LEN: usize = 90;

    /// Whether the record has been created.
    pub fn is_initialized(&self) -> (r: bool)
        ensures
            r == self.is_initialized,
    {
        self.is_initialized
    }

    /// The bytes of the record.
    pub fn pack(&self) -> (r: Vec<u8>)
        ensures
            r@ == redemption_bytes(self@),
            r@.len() == 90,
    {
        let mut out: Vec<u8> = Vec::new();
        put_bool(&mut out, self.is_initialized);
        out.push(self.bump_seed);
        put_address(&mut out, &self.fund_account);
        put_address(&mut out, &self.investor);
        put_u64(&mut out, self.shares_amount);
        put_u64(&mut out, self.share_value);
        put_i64(&mut out, self.created_timestamp);
        proof {
            assert(out@ =~= redemption_bytes(self@));
            lemma_redemption_round_trip(self@, Seq::<u8>::empty());
        }
        out
    }

    /// The record that the bytes hold at their start. Bytes after the record
    /// are ignored. Fails with `BorshIoError` exactly when the bytes hold no
    /// record: they are too short, or the flag is neither zero nor one.
    pub fn unpack(data: &[u8]) -> (r: Result<ShareRedemption, FundError>)
        ensures
            redemption_result_view(r) == redemption_unpacked(redemption_parse(data@)),
    {
        if data.len() < 90 || data[0] > 1 {
            return Err(FundError::BorshIoError);
        }
        Ok(
            ShareRedemption {
                is_initialized: data[0] == 1,
                bump_seed: data[1],
                fund_account: read_address(data, 2),
                investor: read_address(data, 34),
                shares_amount: read_u64(data, 66),
                share_value: read_u64(data, 74),
                created_timestamp: read_i64(data, 82),
            },
        )
    }
}

/// Whether account data holds a redemption record that has been created.
pub open spec fn redemption_is_initialized(data: Seq<u8>) -> bool {
    redemption_parse(data) is Some && redemption_parse(data).unwrap().is_initialized
}

/// Why shares cannot be handed in for redemption, if they cannot, given the
/// fund record read, the address rebuilt for it, and the addresses derived
/// for the vault, the mint and the redemption record. In this order: the
/// system program is not the one expected (`InvalidAccountData`); the
/// custodian or the investor has not signed (`MissingRequiredSignature`); the
/// token program is not the one expected (`InvalidAccountData`); the fund
/// account holds no record (`BorshIoError`); the fund's address cannot be
/// rebuilt, or is not the account's (`InvalidAccountData`); the vault, the
/// mint or the redemption record is not the account derived for it
/// (`InvalidSeeds` where nothing is derived, else `InvalidAccountData`); a
/// redemption of this investor in this fund is in escrow already
/// (`AccountAlreadyInitialized`).
pub open spec fn redemption_error(
    fund_record: Result<FundAccountView, FundError>,
    rebuilt: Result<Seq<u8>, FundError>,
    vault: Option<Seq<u8>>,
    mint: Option<(Seq<u8>, u8)>,
    redemption: Option<(Seq<u8>, u8)>,
    punto_xero: Account,
    fund_account: Account,
    fund_vault: Account,
    mint_account: Account,
    share_redemption_account: Account,
    investor: Account,
    token_program: Account,
    system_program: Account,
) -> Option<FundError> {
    if system_program.key@ != system_program_bytes() {
        Some(FundError::InvalidAccountData)
    } else if !punto_xero.is_signer || !investor.is_signer {
        Some(FundError::MissingRequiredSignature)
    } else if token_program.key@ != token_program_bytes() {
        Some(FundError::InvalidAccountData)
    } else if fund_record is Err {
        Some(fund_record->Err_0)
    } else if rebuilt_error(rebuilt, fund_account.key@) is Some {
        rebuilt_error(rebuilt, fund_account.key@)
    } else if derivation_error(vault, fund_vault.key@) is Some {
        derivation_error(vault, fund_vault.key@)
    } else if derivation_error(found_key(mint), mint_account.key@) is Some {
        derivation_error(found_key(mint), mint_account.key@)
    } else if derivation_error(found_key(redemption), share_redemption_account.key@) is Some {
        derivation_error(found_key(redemption), share_redemption_account.key@)
    } else if redemption_is_initialized(share_redemption_account.data@) {
        Some(FundError::AccountAlreadyInitialized)
    } else {
        None
    }
}

/// The outcome of handing shares in: the error, if there is one, else the
/// record of the escrow, which freezes the fund's share value of the moment.
pub open spec fn redemption_decision(
    fund_record: Result<FundAccountView, FundError>,
    rebuilt: Result<Seq<u8>, FundError>,
    vault: Option<Seq<u8>>,
    mint: Option<(Seq<u8>, u8)>,
    redemption: Option<(Seq<u8>, u8)>,
    punto_xero: Account,
    fund_account: Account,
    fund_vault: Account,
    mint_account: Account,
    share_redemption_account: Account,
    investor: Account,
    token_program: Account,
    system_program: Account,
    shares_to_redeem: u64,
    unix_timestamp: i64,
) -> Result<ShareRedemptionView, FundError> {
    match redemption_error(
        fund_record,
        rebuilt,
        vault,
        mint,
        redemption,
        punto_xero,
        fund_account,
        fund_vault,
        mint_account,
        share_redemption_account,
        investor,
        token_program,
        system_program,
    ) {
        Some(e) => Err(e),
        None => Ok(
            ShareRedemptionView {
                is_initialized: true,
                bump_seed: redemption.unwrap().1,
                fund_account: fund_account.key@,
                investor: investor.key@,
                shares_amount: shares_to_redeem,
                share_value: fund_record.unwrap().share_value,
                created_timestamp: unix_timestamp,
            },
        ),
    }
}

/// The steps that put shares into escrow: create the account of the record,
/// signed for the record's address; write the record; move the shares from
/// the investor's token account into the vault, on the investor's authority.
pub open spec fn redemption_plan(
    record: ShareRedemptionView,
    name: Seq<u8>,
    program_id: Seq<u8>,
    punto_xero: Seq<u8>,
    fund_vault: Seq<u8>,
    share_redemption_account: Seq<u8>,
    investor_ata: Seq<u8>,
    token_program: Seq<u8>,
    system_program: Seq<u8>,
    sysvars: Sysvars,
) -> Seq<StepView> {
    seq![
        invoke_view(
            create_account_view(
                punto_xero,
                share_redemption_account,
                sysvars.rent_record,
                90,
                program_id,
            ),
            seq![punto_xero, share_redemption_account, system_program],
            with_bump(redemption_seeds(name, record.investor), record.bump_seed),
        ),
        store_view(share_redemption_account, redemption_bytes(record)),
        invoke_view(
            token_view(
                signed_accounts(investor_ata, fund_vault, record.investor, record.investor),
                transfer_data(record.shares_amount),
            ),
            seq![token_program, investor_ata, fund_vault, record.investor],
            Seq::<Seq<u8>>::empty(),
        ),
    ]
}

/// What handing shares in returns: the error of the decision, or the plan
/// for the record decided on.
pub open spec fn create_share_redemption_spec(
    program_id: Address,
    punto_xero: Account,
    fund_account: Account,
    fund_vault: Account,
    mint_account: Account,
    share_redemption_account: Account,
    investor: Account,
    investor_ata: Account,
    token_program: Account,
    system_program: Account,
    fund_name: Seq<char>,
    shares_to_redeem: u64,
    sysvars: Sysvars,
) -> Result<Seq<StepView>, FundError> {
    let name = encode_utf8(fund_name);
    let fund_record = fund_unpacked(fund_parse(fund_account.data@));
    match redemption_decision(
        fund_record,
        rebuilt_fund_address(fund_record, name, program_id@),
        associated_token_address(fund_account.key@, mint_account.key@),
        found_within_limits(mint_seeds(name), program_id@),
        found_within_limits(redemption_seeds(name, investor.key@), program_id@),
        punto_xero,
        fund_account,
        fund_vault,
        mint_account,
        share_redemption_account,
        investor,
        token_program,
        system_program,
        shares_to_redeem,
        sysvars.unix_timestamp,
    ) {
        Err(e) => Err(e),
        Ok(record) => Ok(
            redemption_plan(
                record,
                name,
                program_id@,
                punto_xero.key@,
                fund_vault.key@,
                share_redemption_account.key@,
                investor_ata.key@,
                token_program.key@,
                system_program.key@,
                sysvars,
            ),
        ),
    }
}

/// What a settlement comes to.
#[derive(Debug, Clone, Copy, PartialEq, Eq, Structural)]
pub struct Settlement {
    /// The shares to burn.
    pub shares: u64,
    /// The part of the record's balance that goes back to the custodian.
    pub refund: u64,
    /// The bump with which the program signs for the fund record.
    pub bump_seed: u8,
}

/// Why a redemption cannot be settled whatever amount is attested, if it
/// cannot. In this order: the custodian has not signed
/// (`MissingRequiredSignature`); the fund record is not owned by this
/// program (`IllegalOwner`); the fund account holds no record
/// (`BorshIoError`); the fund's address cannot be rebuilt, or is not the
/// account's (`InvalidAccountData`); the system program or the token program
/// is not the one expected (`InvalidAccountData`); the mint, the vault or the
/// redemption record is not the account derived for it (`InvalidSeeds` where
/// nothing is derived, else `InvalidAccountData`); the redemption account
/// holds no record (`BorshIoError`).
pub open spec fn settlement_error(
    fund_record: Result<FundAccountView, FundError>,
    rebuilt: Result<Seq<u8>, FundError>,
    mint: Option<(Seq<u8>, u8)>,
    vault: Option<Seq<u8>>,
    redemption: Option<(Seq<u8>, u8)>,
    program_id: Seq<u8>,
    punto_xero: Account,
    fund_account: Account,
    mint_account: Account,
    share_redemption_account: Account,
    fund_vault: Account,
    token_program: Account,
    system_program: Account,
) -> Option<FundError> {
    if !punto_xero.is_signer {
        Some(FundError::MissingRequiredSignature)
    } else if fund_account.owner@ != program_id {
        Some(FundError::IllegalOwner)
    } else if fund_record is Err {
        Some(fund_record->Err_0)
    } else if rebuilt_error(rebuilt, fund_account.key@) is Some {
        rebuilt_error(rebuilt, fund_account.key@)
    } else if system_program.key@ != system_program_bytes() || token_program.key@
        != token_program_bytes() {
        Some(FundError::InvalidAccountData)
    } else if derivation_error(found_key(mint), mint_account.key@) is Some {
        derivation_error(found_key(mint), mint_account.key@)
    } else if derivation_error(vault, fund_vault.key@) is Some {
        derivation_error(vault, fund_vault.key@)
    } else if derivation_error(found_key(redemption), share_redemption_account.key@) is Some {
        derivation_error(found_key(redemption), share_redemption_account.key@)
    } else if redemption_parse(share_redemption_account.data@) is None {
        Some(FundError::BorshIoError)
    } else {
        None
    }
}

/// The settlement of a record in escrow for an attested amount. The amount
/// owed is the product of the share value frozen in the record and the
/// shares in escrow: `ArithmeticError` where that overflows,
/// `InvalidRedemptionAmount` where the attested amount is any other. Then
/// the record's balance above what keeps an empty account goes back to the
/// custodian: `ArithmeticError` where the record has less, or the
/// custodian's balance would overflow.
pub open spec fn settle(
    record: ShareRedemptionView,
    amount_payed: u64,
    record_lamports: u64,
    custodian_lamports: u64,
    rent_empty: u64,
    bump_seed: u8,
) -> Result<Settlement, FundError> {
    match multiply_spec(record.share_value, record.shares_amount) {
        None => Err(FundError::Custom(CustomError::ArithmeticError)),
        Some(owed) => {
            if owed != amount_payed {
                Err(FundError::Custom(CustomError::InvalidRedemptionAmount))
            } else if record_lamports < rent_empty || custodian_lamports + (record_lamports
                - rent_empty) > u64::MAX {
                Err(FundError::Custom(CustomError::ArithmeticError))
            } else {
                Ok(
                    Settlement {
                        shares: record.shares_amount,
                        refund: (record_lamports - rent_empty) as u64,
                        bump_seed,
                    },
                )
            }
        },
    }
}

/// The outcome of settling a redemption: the error that stands in the way
/// whatever the amount, else the settlement of the record for the amount.
pub open spec fn settlement_decision(
    fund_record: Result<FundAccountView, FundError>,
    rebuilt: Result<Seq<u8>, FundError>,
    mint: Option<(Seq<u8>, u8)>,
    vault: Option<Seq<u8>>,
    redemption: Option<(Seq<u8>, u8)>,
    program_id: Seq<u8>,
    punto_xero: Account,
    fund_account: Account,
    mint_account: Account,
    share_redemption_account: Account,
    fund_vault: Account,
    token_program: Account,
    system_program: Account,
    amount_payed: u64,
    rent_empty: u64,
) -> Result<Settlement, FundError> {
    match settlement_error(
        fund_record,
        rebuilt,
        mint,
        vault,
        redemption,
        program_id,
        punto_xero,
        fund_account,
        mint_account,
        share_redemption_account,
        fund_vault,
        token_program,
        system_program,
    ) {
        Some(e) => Err(e),
        None => settle(
            redemption_parse(share_redemption_account.data@).unwrap(),
            amount_payed,
            share_redemption_account.lamports,
            punto_xero.lamports,
            rent_empty,
            fund_record.unwrap().bump_seed,
        ),
    }
}

/// The steps that settle a redemption: burn the shares in the vault, signed
/// for the fund record, which is the vault's authority; retire the record,
/// with its balance going to the custodian and its ownership to the system
/// program.
pub open spec fn settlement_plan(
    settlement: Settlement,
    name: Seq<u8>,
    punto_xero: Seq<u8>,
    fund_account: Seq<u8>,
    mint_account: Seq<u8>,
    share_redemption_account: Seq<u8>,
    fund_vault: Seq<u8>,
    token_program: Seq<u8>,
    system_program: Seq<u8>,
) -> Seq<StepView> {
    seq![
        invoke_view(
            token_view(
                signed_accounts(fund_vault, mint_account, fund_account, fund_account),
                burn_data(settlement.shares),
            ),
            seq![token_program, fund_vault, mint_account, fund_account],
            with_bump(fund_seeds(name), settlement.bump_seed),
        ),
        release_view(share_redemption_account, punto_xero, settlement.refund, system_program),
    ]
}

/// What settling a redemption returns: the error of the decision, or the
/// plan of the settlement decided on.
pub open spec fn process_share_redemption_spec(
    program_id: Address,
    punto_xero: Account,
    fund_account: Account,
    mint_account: Account,
    share_redemption_account: Account,
    fund_vault: Account,
    investor: Account,
    token_program: Account,
    system_program: Account,
    amount_payed: u64,
    fund_name: Seq<char>,
    sysvars: Sysvars,
) -> Result<Seq<StepView>, FundError> {
    let name = encode_utf8(fund_name);
    let fund_record = fund_unpacked(fund_parse(fund_account.data@));
    match settlement_decision(
        fund_record,
        rebuilt_fund_address(fund_record, name, program_id@),
        found_within_limits(mint_seeds(name), program_id@),
        associated_token_address(fund_account.key@, mint_account.key@),
        found_within_limits(redemption_seeds(name, investor.key@), program_id@),
        program_id@,
        punto_xero,
        fund_account,
        mint_account,
        share_redemption_account,
        fund_vault,
        token_program,
        system_program,
        amount_payed,
        sysvars.rent_empty,
    ) {
        Err(e) => Err(e),
        Ok(settlement) => Ok(
            settlement_plan(
                settlement,
                name,
                punto_xero.key@,
                fund_account.key@,
                mint_account.key@,
                share_redemption_account.key@,
                fund_vault.key@,
                token_program.key@,
                system_program.key@,
            ),
        ),
    }
}

impl ShareRedemption {
    /// Decides whether shares can be handed in, given the fund record read,
    /// the address rebuilt for it and the addresses derived for the vault,
    /// the mint and the redemption record; where they can, returns the
    /// record of the escrow.
    pub fn decide_redemption(
        fund_record: Result<FundAccount, FundError>,
        rebuilt: Result<Address, FundError>,
        vault: Option<Address>,
        mint: Option<(Address, u8)>,
        redemption: Option<(Address, u8)>,
        punto_xero: &Account,
        fund_account: &Account,
        fund_vault: &Account,
        mint_account: &Account,
        share_redemption_account: &Account,
        investor: &Account,
        token_program: &Account,
        system_program: &Account,
        shares_to_redeem: u64,
        unix_timestamp: i64,
    ) -> (r: Result<ShareRedemption, FundError>)
        ensures
            redemption_result_view(r) == redemption_decision(
                fund_result_view(fund_record),
                created_view(rebuilt),
                address_view(vault),
                found_view(mint),
                found_view(redemption),
                *punto_xero,
                *fund_account,
                *fund_vault,
                *mint_account,
                *share_redemption_account,
                *investor,
                *token_program,
                *system_program,
                shares_to_redeem,
                unix_timestamp,
            ),
    {
        if !system_program.key.same(&system_program_id()) {
            return Err(FundError::InvalidAccountData);
        }
        if !punto_xero.is_signer {
            return Err(FundError::MissingRequiredSignature);
        }
        if !investor.is_signer {
            return Err(FundError::MissingRequiredSignature);
        }
        if !token_program.key.same(&token_program_id()) {
            return Err(FundError::InvalidAccountData);
        }
        let fund_account_data = fund_record?;
        check_rebuilt(rebuilt, &fund_account.key)?;
        check_derived(vault, &fund_vault.key)?;
        check_found(mint, &mint_account.key)?;
        let bump_seed = check_found(redemption, &share_redemption_account.key)?;
        match ShareRedemption::unpack(share_redemption_account.data.as_slice()) {
            Ok(existing) => {
                if existing.is_initialized {
                    return Err(FundError::AccountAlreadyInitialized);
                }
            },
            Err(_) => {},
        }
        Ok(
            ShareRedemption {
                is_initialized: true,
                bump_seed,
                fund_account: fund_account.key,
                investor: investor.key,
                shares_amount: shares_to_redeem,
                share_value: fund_account_data.share_value,
                created_timestamp: unix_timestamp,
            },
        )
    }

    /// Hands shares in for redemption. The shares leave the investor's
    /// token account for the fund's vault at once; the record keeps how many
    /// they are and what a share was worth. Fails with
    /// `AccountAlreadyInitialized` while an earlier redemption of the same
    /// investor in the same fund is in escrow.
    pub fn create_share_redemption(
        program_id: &Address,
        punto_xero: &Account,
        fund_account: &Account,
        fund_vault: &Account,
        mint_account: &Account,
        share_redemption_account: &Account,
        investor: &Account,
        investor_ata: &Account,
        token_program: &Account,
        system_program: &Account,
        fund_name: String,
        shares_to_redeem: u64,
        sysvars: &Sysvars,
    ) -> (r: Result<Vec<Step>, FundError>)
        ensures
            plan_result_view(r) == create_share_redemption_spec(
                *program_id,
                *punto_xero,
                *fund_account,
                *fund_vault,
                *mint_account,
                *share_redemption_account,
                *investor,
                *investor_ata,
                *token_program,
                *system_program,
                fund_name@,
                shares_to_redeem,
                *sysvars,
            ),
    {
        let fund_name = fund_name.as_str();
        let fund_record = FundAccount::unpack(fund_account.data.as_slice());
        let rebuilt = FundAccount::rebuild_address(&fund_record, fund_name, program_id);
        let vault = find_associated_token_address(&fund_account.key, &mint_account.key);
        let mint = find_mint_address(fund_name, program_id);
        let redemption = find_redemption_address(fund_name, &investor.key, program_id);
        let record = ShareRedemption::decide_redemption(
            fund_record,
            rebuilt,
            vault,
            mint,
            redemption,
            punto_xero,
            fund_account,
            fund_vault,
            mint_account,
            share_redemption_account,
            investor,
            token_program,
            system_program,
            shares_to_redeem,
            sysvars.unix_timestamp,
        )?;
        let mut plan = empty_plan();

        let create_record = create_account(
            &punto_xero.key,
            &share_redemption_account.key,
            sysvars.rent_record,
            90,
            program_id,
        );
        let mut keys = no_keys();
        push_key(&mut keys, punto_xero.key);
        push_key(&mut keys, share_redemption_account.key);
        push_key(&mut keys, system_program.key);
        assert(keys.deep_view() =~= seq![
            punto_xero.key@,
            share_redemption_account.key@,
            system_program.key@,
        ]);
        push_step(
            &mut plan,
            Step::Invoke {
                instruction: create_record,
                accounts: keys,
                signer_seeds: redemption_signer_seeds(fund_name, &investor.key, record.bump_seed),
            },
        );

        push_step(
            &mut plan,
            Step::Store { account: share_redemption_account.key, data: record.pack() },
        );

        let move_shares = match transfer(
            &token_program.key,
            &investor_ata.key,
            &fund_vault.key,
            &investor.key,
            &investor.key,
            shares_to_redeem,
        ) {
            Some(instruction) => instruction,
            None => {
                return Err(FundError::InvalidAccountData);
            },
        };
        let mut keys = no_keys();
        push_key(&mut keys, token_program.key);
        push_key(&mut keys, investor_ata.key);
        push_key(&mut keys, fund_vault.key);
        push_key(&mut keys, investor.key);
        assert(keys.deep_view() =~= seq![
            token_program.key@,
            investor_ata.key@,
            fund_vault.key@,
            investor.key@,
        ]);
        push_step(
            &mut plan,
            Step::Invoke { instruction: move_shares, accounts: keys, signer_seeds: no_seeds() },
        );

        proof {
            let expected = redemption_plan(
                record@,
                encode_utf8(fund_name@),
                program_id@,
                punto_xero.key@,
                fund_vault.key@,
                share_redemption_account.key@,
                investor_ata.key@,
                token_program.key@,
                system_program.key@,
                *sysvars,
            );
            assert(plan_view(plan)[0] == expected[0]);
            assert(plan_view(plan)[1] == expected[1]);
            assert(plan_view(plan)[2] == expected[2]);
            assert(plan_view(plan) =~= expected);
        }
        Ok(plan)
    }

    /// Settles a record in escrow for an attested amount: checks the amount
    /// against what the shares in escrow are worth at the frozen share
    /// value, and works out what of the record's balance goes back to the
    /// custodian.
    pub fn settle_record(
        record: &ShareRedemption,
        amount_payed: u64,
        record_lamports: u64,
        custodian_lamports: u64,
        rent_empty: u64,
        bump_seed: u8,
    ) -> (r: Result<Settlement, FundError>)
        ensures
            r == settle(
                record@,
                amount_payed,
                record_lamports,
                custodian_lamports,
                rent_empty,
                bump_seed,
            ),
    {
        let amount_to_be_payed = fixed_point_multiply_checked(
            record.share_value,
            record.shares_amount,
        )?;
        if amount_to_be_payed != amount_payed {
            return Err(FundError::Custom(CustomError::InvalidRedemptionAmount));
        }
        if record_lamports < rent_empty {
            return Err(FundError::Custom(CustomError::ArithmeticError));
        }
        let refund = record_lamports - rent_empty;
        if custodian_lamports.checked_add(refund).is_none() {
            return Err(FundError::Custom(CustomError::ArithmeticError));
        }
        Ok(Settlement { shares: record.shares_amount, refund, bump_seed })
    }

    /// Decides whether a redemption can be settled for an attested amount,
    /// given the fund record read, the address rebuilt for it and the
    /// addresses derived for the mint, the vault and the redemption record;
    /// where it can, returns what to burn and what to refund.
    pub fn decide_settlement(
        fund_record: Result<FundAccount, FundError>,
        rebuilt: Result<Address, FundError>,
        mint: Option<(Address, u8)>,
        vault: Option<Address>,
        redemption: Option<(Address, u8)>,
        program_id: &Address,
        punto_xero: &Account,
        fund_account: &Account,
        mint_account: &Account,
        share_redemption_account: &Account,
        fund_vault: &Account,
        token_program: &Account,
        system_program: &Account,
        amount_payed: u64,
        rent_empty: u64,
    ) -> (r: Result<Settlement, FundError>)
        ensures
            r == settlement_decision(
                fund_result_view(fund_record),
                created_view(rebuilt),
                found_view(mint),
                address_view(vault),
                found_view(redemption),
                program_id@,
                *punto_xero,
                *fund_account,
                *mint_account,
                *share_redemption_account,
                *fund_vault,
                *token_program,
                *system_program,
                amount_payed,
                rent_empty,
            ),
    {
        if !punto_xero.is_signer {
            return Err(FundError::MissingRequiredSignature);
        }
        if !fund_account.owner.same(program_id) {
            return Err(FundError::IllegalOwner);
        }
        let fund_account_data = fund_record?;
        check_rebuilt(rebuilt, &fund_account.key)?;
        if !system_program.key.same(&system_program_id()) {
            return Err(FundError::InvalidAccountData);
        }
        if !token_program.key.same(&token_program_id()) {
            return Err(FundError::InvalidAccountData);
        }
        check_found(mint, &mint_account.key)?;
        check_derived(vault, &fund_vault.key)?;
        check_found(redemption, &share_redemption_account.key)?;
        let share_redemption_data = ShareRedemption::unpack(
            share_redemption_account.data.as_slice(),
        )?;
        ShareRedemption::settle_record(
            &share_redemption_data,
            amount_payed,
            share_redemption_account.lamports,
            punto_xero.lamports,
            rent_empty,
            fund_account_data.bump_seed,
        )
    }

    /// Settles a redemption. Only the custodian signs: it attests that the
    /// investor has been paid `amount_payed` outside the ledger. The amount
    /// must be exactly what the shares in escrow are worth at the share
    /// value frozen in the record; any other amount fails with
    /// `InvalidRedemptionAmount` and leaves the record in escrow.
    pub fn process_share_redemption(
        program_id: &Address,
        punto_xero: &Account,
        fund_account: &Account,
        mint_account: &Account,
        share_redemption_account: &Account,
        fund_vault: &Account,
        investor: &Account,
        token_program: &Account,
        system_program: &Account,
        amount_payed: u64,
        fund_name: String,
        sysvars: &Sysvars,
    ) -> (r: Result<Vec<Step>, FundError>)
        ensures
            plan_result_view(r) == process_share_redemption_spec(
                *program_id,
                *punto_xero,
                *fund_account,
                *mint_account,
                *share_redemption_account,
                *fund_vault,
                *investor,
                *token_program,
                *system_program,
                amount_payed,
                fund_name@,
                *sysvars,
            ),
    {
        let fund_name = fund_name.as_str();
        let fund_record = FundAccount::unpack(fund_account.data.as_slice());
        let rebuilt = FundAccount::rebuild_address(&fund_record, fund_name, program_id);
        let mint = find_mint_address(fund_name, program_id);
        let vault = find_associated_token_address(&fund_account.key, &mint_account.key);
        let redemption = find_redemption_address(fund_name, &investor.key, program_id);
        let settlement = ShareRedemption::decide_settlement(
            fund_record,
            rebuilt,
            mint,
            vault,
            redemption,
            program_id,
            punto_xero,
            fund_account,
            mint_account,
            share_redemption_account,
            fund_vault,
            token_program,
            system_program,
            amount_payed,
            sysvars.rent_empty,
        )?;
        let mut plan = empty_plan();

        let burn_shares = match burn(
            &token_program.key,
            &fund_vault.key,
            &mint_account.key,
            &fund_account.key,
            &fund_account.key,
            settlement.shares,
        ) {
            Some(instruction) => instruction,
            None => {
                return Err(FundError::InvalidAccountData);
            },
        };
        let mut keys = no_keys();
        push_key(&mut keys, token_program.key);
        push_key(&mut keys, fund_vault.key);
        push_key(&mut keys, mint_account.key);
        push_key(&mut keys, fund_account.key);
        assert(keys.deep_view() =~= seq![
            token_program.key@,
            fund_vault.key@,
            mint_account.key@,
            fund_account.key@,
        ]);
        push_step(
            &mut plan,
            Step::Invoke {
                instruction: burn_shares,
                accounts: keys,
                signer_seeds: fund_signer_seeds(fund_name, settlement.bump_seed),
            },
        );

        push_step(
            &mut plan,
            Step::Release {
                account: share_redemption_account.key,
                recipient: punto_xero.key,
                lamports: settlement.refund,
                owner: system_program.key,
            },
        );

        proof {
            let expected = settlement_plan(
                settlement,
                encode_utf8(fund_name@),
                punto_xero.key@,
                fund_account.key@,
                mint_account.key@,
                share_redemption_account.key@,
                fund_vault.key@,
                token_program.key@,
                system_program.key@,
            );
            assert(plan_view(plan)[0] == expected[0]);
            assert(plan_view(plan)[1] == expected[1]);
            assert(plan_view(plan) =~= expected);
        }
        Ok(plan)
    }
}

/// There is one redemption in escrow per fund and investor. Where handing
/// shares in succeeds, the record that the plan writes reads back with the
/// shares handed in and the fund's share value of the moment, and handing
/// shares in again, while the account holds that record, fails with
/// `AccountAlreadyInitialized`, however many shares are handed in then.
pub proof fn lemma_one_redemption_in_escrow(
    program_id: Address,
    punto_xero: Account,
    fund_account: Account,
    fund_vault: Account,
    mint_account: Account,
    share_redemption_account: Account,
    investor: Account,
    investor_ata: Account,
    token_program: Account,
    system_program: Account,
    fund_name: Seq<char>,
    shares_to_redeem: u64,
    sysvars: Sysvars,
    escrowed: Account,
    later_shares: u64,
    later_sysvars: Sysvars,
)
    requires
        create_share_redemption_spec(
            program_id,
            punto_xero,
            fund_account,
            fund_vault,
            mint_account,
            share_redemption_account,
            investor,
            investor_ata,
            token_program,
            system_program,
            fund_name,
            shares_to_redeem,
            sysvars,
        ) is Ok,
        escrowed.key == share_redemption_account.key,
        create_share_redemption_spec(
            program_id,
            punto_xero,
            fund_account,
            fund_vault,
            mint_account,
            share_redemption_account,
            investor,
            investor_ata,
            token_program,
            system_program,
            fund_name,
            shares_to_redeem,
            sysvars,
        ).unwrap()[1] == store_view(escrowed.key@, escrowed.data@),
    ensures
        redemption_parse(escrowed.data@) is Some,
        redemption_parse(escrowed.data@).unwrap().is_initialized,
        redemption_parse(escrowed.data@).unwrap().shares_amount == shares_to_redeem,
        redemption_parse(escrowed.data@).unwrap().share_value == fund_parse(
            fund_account.data@,
        ).unwrap().share_value,
        redemption_parse(escrowed.data@).unwrap().fund_account == fund_account.key@,
        redemption_parse(escrowed.data@).unwrap().investor == investor.key@,
        create_share_redemption_spec(
            program_id,
            punto_xero,
            fund_account,
            fund_vault,
            mint_account,
            escrowed,
            investor,
            investor_ata,
            token_program,
            system_program,
            fund_name,
            later_shares,
            later_sysvars,
        ) == Err::<Seq<StepView>, FundError>(FundError::AccountAlreadyInitialized),
{
    let name = encode_utf8(fund_name);
    let fund_record = fund_unpacked(fund_parse(fund_account.data@));
    let record = redemption_decision(
        fund_record,
        rebuilt_fund_address(fund_record, name, program_id@),
        associated_token_address(fund_account.key@, mint_account.key@),
        found_within_limits(mint_seeds(name), program_id@),
        found_within_limits(redemption_seeds(name, investor.key@), program_id@),
        punto_xero,
        fund_account,
        fund_vault,
        mint_account,
        share_redemption_account,
        investor,
        token_program,
        system_program,
        shares_to_redeem,
        sysvars.unix_timestamp,
    ).unwrap();
    assert(record.wf());
    lemma_redemption_round_trip(record, Seq::<u8>::empty());
    assert(redemption_bytes(record) + Seq::<u8>::empty() =~= redemption_bytes(record));
    assert(escrowed.data@ == redemption_bytes(record));
}

/// Why a redemption cannot be settled whatever amount is attested, if it
/// cannot, with every address derived as the operation derives it.
pub open spec fn process_share_redemption_error(
    program_id: Address,
    punto_xero: Account,
    fund_account: Account,
    mint_account: Account,
    share_redemption_account: Account,
    fund_vault: Account,
    investor: Account,
    token_program: Account,
    system_program: Account,
    fund_name: Seq<char>,
) -> Option<FundError> {
    let name = encode_utf8(fund_name);
    let fund_record = fund_unpacked(fund_parse(fund_account.data@));
    settlement_error(
        fund_record,
        rebuilt_fund_address(fund_record, name, program_id@),
        found_within_limits(mint_seeds(name), program_id@),
        associated_token_address(fund_account.key@, mint_account.key@),
        found_within_limits(redemption_seeds(name, investor.key@), program_id@),
        program_id@,
        punto_xero,
        fund_account,
        mint_account,
        share_redemption_account,
        fund_vault,
        token_program,
        system_program,
    )
}

/// A redemption is settled for exactly what it is worth. Let a record in
/// escrow hold `shares` at the frozen share value `value`, and let nothing
/// but the amount and the balances stand in the way of settling it. Then:
/// settling succeeds only for the amount `floor(value * shares / SCALE)`;
/// for that amount it succeeds whenever the record's balance covers what
/// keeps an empty account and the custodian's balance can take the rest,
/// and its plan burns exactly `shares` and retires the record; for any
/// other amount it fails with `InvalidRedemptionAmount`, and with no plan
/// the record stays as it is. What the fund's share value has become since
/// the request does not matter.
pub proof fn lemma_settlement_is_exact(
    program_id: Address,
    punto_xero: Account,
    fund_account: Account,
    mint_account: Account,
    share_redemption_account: Account,
    fund_vault: Account,
    investor: Account,
    token_program: Account,
    system_program: Account,
    amount_payed: u64,
    fund_name: Seq<char>,
    sysvars: Sysvars,
)
    requires
        process_share_redemption_error(
            program_id,
            punto_xero,
            fund_account,
            mint_account,
            share_redemption_account,
            fund_vault,
            investor,
            token_program,
            system_program,
            fund_name,
        ) is None,
    ensures
        redemption_parse(share_redemption_account.data@) is Some,
        ({
            let record = redemption_parse(share_redemption_account.data@).unwrap();
            let owed = multiply_spec(record.share_value, record.shares_amount);
            let outcome = process_share_redemption_spec(
                program_id,
                punto_xero,
                fund_account,
                mint_account,
                share_redemption_account,
                fund_vault,
                investor,
                token_program,
                system_program,
                amount_payed,
                fund_name,
                sysvars,
            );
            let can_refund = share_redemption_account.lamports >= sysvars.rent_empty
                && punto_xero.lamports + (share_redemption_account.lamports - sysvars.rent_empty)
                <= u64::MAX;
            &&& outcome is Ok <==> owed == Some(amount_payed) && can_refund
            &&& owed is Some && owed != Some(amount_payed) ==> outcome == Err::<
                Seq<StepView>,
                FundError,
            >(FundError::Custom(CustomError::InvalidRedemptionAmount))
            &&& owed is None ==> outcome == Err::<Seq<StepView>, FundError>(
                FundError::Custom(CustomError::ArithmeticError),
            )
            &&& outcome is Ok ==> {
                &&& outcome.unwrap().len() == 2
                &&& outcome.unwrap()[0] == invoke_view(
                    token_view(
                        signed_accounts(
                            fund_vault.key@,
                            mint_account.key@,
                            fund_account.key@,
                            fund_account.key@,
                        ),
                        burn_data(record.shares_amount),
                    ),
                    seq![
                        token_program.key@,
                        fund_vault.key@,
                        mint_account.key@,
                        fund_account.key@,
                    ],
                    with_bump(
                        fund_seeds(encode_utf8(fund_name)),
                        fund_parse(fund_account.data@).unwrap().bump_seed,
                    ),
                )
                &&& outcome.unwrap()[1] == release_view(
                    share_redemption_account.key@,
                    punto_xero.key@,
                    (share_redemption_account.lamports - sysvars.rent_empty) as u64,
                    system_program_bytes(),
                )
            }
        }),
{
}

/// A record that has been retired cannot be settled again: once the
/// account of the redemption holds no data, settling fails, and not for the
/// amount.
pub proof fn lemma_retired_record_is_gone(
    program_id: Address,
    punto_xero: Account,
    fund_account: Account,
    mint_account: Account,
    share_redemption_account: Account,
    fund_vault: Account,
    investor: Account,
    token_program: Account,
    system_program: Account,
    amount_payed: u64,
    fund_name: Seq<char>,
    sysvars: Sysvars,
)
    requires
        share_redemption_account.data@.len() == 0,
    ensures
        redemption_parse(share_redemption_account.data@) is None,
        process_share_redemption_spec(
            program_id,
            punto_xero,
            fund_account,
            mint_account,
            share_redemption_account,
            fund_vault,
            investor,
            token_program,
            system_program,
            amount_payed,
            fund_name,
            sysvars,
        ) is Err,
        process_share_redemption_spec(
            program_id,
            punto_xero,
            fund_account,
            mint_account,
            share_redemption_account,
            fund_vault,
            investor,
            token_program,
            system_program,
            amount_payed,
            fund_name,
            sysvars,
        ) != Err::<Seq<StepView>, FundError>(
            FundError::Custom(CustomError::InvalidRedemptionAmount),
        ),
{
}

/// Handing shares in and then settling for what they were worth succeeds.
/// Let handing `shares_to_redeem` in have succeeded while the fund's share
/// value was `value`, let the account of the redemption hold the record
/// that was written, and let nothing but the amount and the balances stand
/// in the way of settling. Then settling succeeds only for the amount
/// `floor(value * shares_to_redeem / SCALE)`, it burns `shares_to_redeem`,
/// and any other amount fails with `InvalidRedemptionAmount`, whatever the
/// fund's share value is by then.
pub proof fn lemma_redeem_then_settle(
    program_id: Address,
    punto_xero: Account,
    fund_account: Account,
    fund_vault: Account,
    mint_account: Account,
    share_redemption_account: Account,
    investor: Account,
    investor_ata: Account,
    token_program: Account,
    system_program: Account,
    fund_name: Seq<char>,
    shares_to_redeem: u64,
    sysvars: Sysvars,
    escrowed: Account,
    later_punto_xero: Account,
    later_fund_account: Account,
    amount_payed: u64,
    later_sysvars: Sysvars,
)
    requires
        create_share_redemption_spec(
            program_id,
            punto_xero,
            fund_account,
            fund_vault,
            mint_account,
            share_redemption_account,
            investor,
            investor_ata,
            token_program,
            system_program,
            fund_name,
            shares_to_redeem,
            sysvars,
        ) is Ok,
        escrowed.key == share_redemption_account.key,
        create_share_redemption_spec(
            program_id,
            punto_xero,
            fund_account,
            fund_vault,
            mint_account,
            share_redemption_account,
            investor,
            investor_ata,
            token_program,
            system_program,
            fund_name,
            shares_to_redeem,
            sysvars,
        ).unwrap()[1] == store_view(escrowed.key@, escrowed.data@),
        process_share_redemption_error(
            program_id,
            later_punto_xero,
            later_fund_account,
            mint_account,
            escrowed,
            fund_vault,
            investor,
            token_program,
            system_program,
            fund_name,
        ) is None,
    ensures
        ({
            let value = fund_parse(fund_account.data@).unwrap().share_value;
            let owed = multiply_spec(value, shares_to_redeem);
            let outcome = process_share_redemption_spec(
                program_id,
                later_punto_xero,
                later_fund_account,
                mint_account,
                escrowed,
                fund_vault,
                investor,
                token_program,
                system_program,
                amount_payed,
                fund_name,
                later_sysvars,
            );
            let can_refund = escrowed.lamports >= later_sysvars.rent_empty
                && later_punto_xero.lamports + (escrowed.lamports - later_sysvars.rent_empty)
                <= u64::MAX;
            &&& outcome is Ok <==> owed == Some(amount_payed) && can_refund
            &&& owed is Some && owed != Some(amount_payed) ==> outcome == Err::<
                Seq<StepView>,
                FundError,
            >(FundError::Custom(CustomError::InvalidRedemptionAmount))
            &&& outcome is Ok ==> outcome.unwrap()[0] is Invoke
                && outcome.unwrap()[0]->Invoke_instruction.data == burn_data(shares_to_redeem)
            &&& outcome is Ok ==> outcome.unwrap()[1] == release_view(
                escrowed.key@,
                later_punto_xero.key@,
                (escrowed.lamports - later_sysvars.rent_empty) as u64,
                system_program_bytes(),
            )
        }),
{
    lemma_one_redemption_in_escrow(
        program_id,
        punto_xero,
        fund_account,
        fund_vault,
        mint_account,
        share_redemption_account,
        investor,
        investor_ata,
        token_program,
        system_program,
        fund_name,
        shares_to_redeem,
        sysvars,
        escrowed,
        shares_to_redeem,
        sysvars,
    );
    lemma_settlement_is_exact(
        program_id,
        later_punto_xero,
        later_fund_account,
        mint_account,
        escrowed,
        fund_vault,
        investor,
        token_program,
        system_program,
        amount_payed,
        fund_name,
        later_sysvars,
    );
}

/// Settling retires the record. Where settling succeeds, carrying out the
/// last step of its plan leaves the account of the redemption without data,
/// owned by the system program and with just the balance that keeps an
/// empty account; what it holds then reads as no record. The custodian's
/// account gets the rest of the balance.
pub proof fn lemma_settlement_retires_record(
    program_id: Address,
    punto_xero: Account,
    fund_account: Account,
    mint_account: Account,
    share_redemption_account: Account,
    fund_vault: Account,
    investor: Account,
    token_program: Account,
    system_program: Account,
    amount_payed: u64,
    fund_name: Seq<char>,
    sysvars: Sysvars,
)
    requires
        process_share_redemption_spec(
            program_id,
            punto_xero,
            fund_account,
            mint_account,
            share_redemption_account,
            fund_vault,
            investor,
            token_program,
            system_program,
            amount_payed,
            fund_name,
            sysvars,
        ) is Ok,
    ensures
        ({
            let plan = process_share_redemption_spec(
                program_id,
                punto_xero,
                fund_account,
                mint_account,
                share_redemption_account,
                fund_vault,
                investor,
                token_program,
                system_program,
                amount_payed,
                fund_name,
                sysvars,
            ).unwrap();
            let retired = after_step(share_redemption_account@, plan[1]);
            let paid = after_step(punto_xero@, plan[1]);
            &&& plan.len() == 2
            &&& retired is Ok
            &&& retired.unwrap().data.len() == 0
            &&& retired.unwrap().owner == system_program_bytes()
            &&& retired.unwrap().lamports == sysvars.rent_empty
            &&& redemption_parse(retired.unwrap().data) is None
            &&& punto_xero.key@ != share_redemption_account.key@ ==> paid is Ok
                && paid.unwrap().lamports == punto_xero.lamports + (
            share_redemption_account.lamports - sysvars.rent_empty)
        }),
{
}

} // verus!
