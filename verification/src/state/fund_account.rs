//! The fund's record, and the operations that create it, reprice its shares
//! and sell them.

use crate::account::{
    after_step, empty_plan, invoke_view, lemma_written_fills, no_keys, no_seeds, plan_result_view, plan_view, push_key, push_step,
    readonly, store_view, writable, Account, Step, StepView, Sysvars,
};
use crate::address::{
    address_view, associated_token_address, associated_token_program_bytes,
    associated_token_program_id, associated_token_seeds, check_derived, check_found,
    check_rebuilt, create_fund_address, created_result, created_view, derivation_error,
    find_associated_token_address, find_fund_address, find_mint_address, found_key, found_view,
    found_within_limits, fund_seeds, fund_signer_seeds, lemma_found_name_fits, mint_seeds, mint_signer_seeds, rebuilt_error, rent_sysvar_bytes,
    system_program_bytes, system_program_id, token_program_bytes, token_program_id, with_bump,
    Address,
};
use crate::codec::{
    bool_byte, i64_bytes, i64_from_bytes, lemma_i64_bits, lemma_string_canonical,
    lemma_string_round_trip, put_address, put_bool, put_i64, put_string, put_u64, read_address,
    read_i64, read_string, read_u32, read_u64, string_bytes, string_fits,
};
use crate::errors::{CustomError, FundError};
use crate::invoke::{
    create_account, create_account_view, create_associated_token_account,
    create_associated_view, initialize_mint, initialize_mint_data, mint_to, mint_to_data,
    signed_accounts, token_view, MINT_SPACE, SHARE_DECIMALS,
};
use crate::utils::{divide_spec, fixed_point_divide_checked};
use vstd::bytes::{
    lemma_auto_spec_u32_to_from_le_bytes, lemma_auto_spec_u64_to_from_le_bytes,
    spec_u32_from_le_bytes, spec_u64_from_le_bytes, spec_u64_to_le_bytes,
};
use vstd::prelude::*;
use vstd::utf8::{decode_utf8, encode_utf8, valid_utf8};

verus! {

/// The record of a fund. There is one per fund; it is created once, its
/// share value is updated in place, and it is never deleted.
#[derive(Debug, Clone, PartialEq, Eq)]
pub struct FundAccount {
    /// Set once the record has been created.
    pub is_initialized: bool,
    /// The bump of the record's own address.
    pub bump_seed: u8,
    /// The custodian, who signs every operation.
    pub punto_xero_master_pubkey: Address,
    /// The manager, who signs the creation and every change of the share value.
    pub manager_master_pubkey: Address,
    /// The mint of the fund's shares.
    pub fund_mint: Address,
    /// The bump of the mint's address.
    pub mint_bump_seed: u8,
    /// The token account that holds shares in escrow.
    pub fund_vault: Address,
    /// The price of one share, in minimal fiat units.
    pub share_value: u64,
    /// When the share value was last set.
    pub share_value_update: i64,
    /// The fund's name, which is also a seed of its addresses.
    pub fund_name: String,
}

/// A [`FundAccount`] as a mathematical value.
pub struct FundAccountView {
    pub is_initialized: bool,
    pub bump_seed: u8,
    pub punto_xero_master_pubkey: Seq<u8>,
    pub manager_master_pubkey: Seq<u8>,
    pub fund_mint: Seq<u8>,
    pub mint_bump_seed: u8,
    pub fund_vault: Seq<u8>,
    pub share_value: u64,
    pub share_value_update: i64,
    pub fund_name: Seq<char>,
}

impl FundAccountView {
    /// Every address of the record has the length of an address.
    pub open spec fn wf(self) -> bool {
        &&& self.punto_xero_master_pubkey.len() == 32
        &&& self.manager_master_pubkey.len() == 32
        &&& self.fund_mint.len() == 32
        &&& self.fund_vault.len() == 32
    }
}

impl View for FundAccount {
    type V = FundAccountView;

    open spec fn view(&self) -> FundAccountView {
        FundAccountView {
            is_initialized: self.is_initialized,
            bump_seed: self.bump_seed,
            punto_xero_master_pubkey: self.punto_xero_master_pubkey@,
            manager_master_pubkey: self.manager_master_pubkey@,
            fund_mint: self.fund_mint@,
            mint_bump_seed: self.mint_bump_seed,
            fund_vault: self.fund_vault@,
            share_value: self.share_value,
            share_value_update: self.share_value_update,
            fund_name: self.fund_name@,
        }
    }
}

/// The number of bytes of a fund record before its name.
pub const FUND_FIXED_LEN: usize = 151;

/// The bytes of a fund record: the flag, the bump, the custodian, the
/// manager, the mint and its bump, the vault, the share value, the time of
/// its last update, and the name.
pub open spec fn fund_bytes(v: FundAccountView) -> Seq<u8> {
    seq![bool_byte(v.is_initialized), v.bump_seed] + v.punto_xero_master_pubkey
        + v.manager_master_pubkey + v.fund_mint + seq![v.mint_bump_seed] + v.fund_vault
        + spec_u64_to_le_bytes(v.share_value) + i64_bytes(v.share_value_update) + string_bytes(
        v.fund_name,
    )
}

/// The length of the name that the bytes of a fund record announce.
pub open spec fn fund_name_len(data: Seq<u8>) -> int {
    spec_u32_from_le_bytes(data.subrange(147, 151)) as int
}

/// The fund record that bytes hold at their start, if they hold one.
pub open spec fn fund_parse(data: Seq<u8>) -> Option<FundAccountView> {
    if data.len() < 151 || data[0] > 1 || data.len() < 151 + fund_name_len(data) || !valid_utf8(
        data.subrange(151, 151 + fund_name_len(data)),
    ) {
        None
    } else {
        Some(
            FundAccountView {
                is_initialized: data[0] == 1,
                bump_seed: data[1],
                punto_xero_master_pubkey: data.subrange(2, 34),
                manager_master_pubkey: data.subrange(34, 66),
                fund_mint: data.subrange(66, 98),
                mint_bump_seed: data[98],
                fund_vault: data.subrange(99, 131),
                share_value: spec_u64_from_le_bytes(data.subrange(131, 139)),
                share_value_update: i64_from_bytes(data.subrange(139, 147)),
                fund_name: decode_utf8(data.subrange(151, 151 + fund_name_len(data))),
            },
        )
    }
}

/// What unpacking returns for what the bytes hold.
pub open spec fn fund_unpacked(parsed: Option<FundAccountView>) -> Result<
    FundAccountView,
    FundError,
> {
    match parsed {
        Some(v) => Ok(v),
        None => Err(FundError::BorshIoError),
    }
}

/// A record, or the error in its place, as a mathematical value.
pub open spec fn fund_result_view(r: Result<FundAccount, FundError>) -> Result<
    FundAccountView,
    FundError,
> {
    match r {
        Ok(record) => Ok(record@),
        Err(e) => Err(e),
    }
}

/// The bytes of a fund record read back as the record, whatever follows
/// them.
pub proof fn lemma_fund_round_trip(v: FundAccountView, rest: Seq<u8>)
    requires
        v.wf(),
        string_fits(v.fund_name),
    ensures
        fund_bytes(v).len() == 151 + encode_utf8(v.fund_name).len(),
        fund_parse(fund_bytes(v) + rest) == Some(v),
{
    lemma_auto_spec_u64_to_from_le_bytes();
    lemma_i64_bits(v.share_value_update);
    lemma_string_round_trip(v.fund_name, rest);
    let head = seq![bool_byte(v.is_initialized), v.bump_seed] + v.punto_xero_master_pubkey
        + v.manager_master_pubkey + v.fund_mint + seq![v.mint_bump_seed] + v.fund_vault
        + spec_u64_to_le_bytes(v.share_value) + i64_bytes(v.share_value_update);
    let name = string_bytes(v.fund_name);
    let n = encode_utf8(v.fund_name).len() as int;
    let data = fund_bytes(v) + rest;
    assert(head.len() == 147);
    assert(data =~= head + (name + rest));
    assert(data.subrange(2, 34) =~= v.punto_xero_master_pubkey);
    assert(data.subrange(34, 66) =~= v.manager_master_pubkey);
    assert(data.subrange(66, 98) =~= v.fund_mint);
    assert(data.subrange(99, 131) =~= v.fund_vault);
    assert(data.subrange(131, 139) =~= spec_u64_to_le_bytes(v.share_value));
    assert(data.subrange(139, 147) =~= i64_bytes(v.share_value_update));
    assert(data.subrange(147, 151) =~= (name + rest).subrange(0, 4));
    assert(fund_name_len(data) == n);
    assert(data.subrange(151, 151 + n) =~= (name + rest).subrange(4, 4 + n));
    assert(data[0] == bool_byte(v.is_initialized));
    assert(data[1] == v.bump_seed);
    assert(data[98] == v.mint_bump_seed);
    let parsed = fund_parse(data).unwrap();
    assert(parsed.fund_name == v.fund_name);
    assert(parsed.share_value == v.share_value);
    assert(parsed.share_value_update == v.share_value_update);
}

impl FundAccount {
    /// Whether the record has been created.
    pub fn is_initialized(&self) -> (r: bool)
        ensures
            r == self.is_initialized,
    {
        self.is_initialized
    }

    /// The space that the record of a fund with this name takes.
    pub fn get_space(name: &str) -> (r: usize)
        requires
            151 + encode_utf8(name@).len() <= usize::MAX,
        ensures
            r == 151 + encode_utf8(name@).len(),
    {
        FUND_FIXED_LEN + name.len()
    }

    /// The bytes of the record. Fails with `BorshIoError` exactly when the
    /// name is too long for its length to be written in 32 bits.
    pub fn pack(&self) -> (r: Result<Vec<u8>, FundError>)
        ensures
            string_fits(self@.fund_name) ==> r is Ok && r.unwrap()@ == fund_bytes(self@),
            !string_fits(self@.fund_name) ==> r == Err::<Vec<u8>, FundError>(
                FundError::BorshIoError,
            ),
    {
        let mut out: Vec<u8> = Vec::new();
        put_bool(&mut out, self.is_initialized);
        out.push(self.bump_seed);
        put_address(&mut out, &self.punto_xero_master_pubkey);
        put_address(&mut out, &self.manager_master_pubkey);
        put_address(&mut out, &self.fund_mint);
        out.push(self.mint_bump_seed);
        put_address(&mut out, &self.fund_vault);
        put_u64(&mut out, self.share_value);
        put_i64(&mut out, self.share_value_update);
        if !put_string(&mut out, self.fund_name.as_str()) {
            return Err(FundError::BorshIoError);
        }
        assert(out@ =~= fund_bytes(self@));
        Ok(out)
    }

    /// The record that the bytes hold at their start. Bytes after the record
    /// are ignored. Fails with `BorshIoError` exactly when the bytes hold no
    /// record: they are too short, the flag is neither zero nor one, or the
    /// name is not valid UTF-8.
    pub fn unpack(data: &[u8]) -> (r: Result<FundAccount, FundError>)
        ensures
            fund_result_view(r) == fund_unpacked(fund_parse(data@)),
    {
        let len = data.len();
        if len < FUND_FIXED_LEN || data[0] > 1 {
            return Err(FundError::BorshIoError);
        }
        let n = read_u32(data, 147) as usize;
        if len - FUND_FIXED_LEN < n {
            return Err(FundError::BorshIoError);
        }
        match read_string(data, FUND_FIXED_LEN, FUND_FIXED_LEN + n) {
            None => Err(FundError::BorshIoError),
            Some(fund_name) => Ok(
                FundAccount {
                    is_initialized: data[0] == 1,
                    bump_seed: data[1],
                    punto_xero_master_pubkey: read_address(data, 2),
                    manager_master_pubkey: read_address(data, 34),
                    fund_mint: read_address(data, 66),
                    mint_bump_seed: data[98],
                    fund_vault: read_address(data, 99),
                    share_value: read_u64(data, 131),
                    share_value_update: read_i64(data, 139),
                    fund_name,
                },
            ),
        }
    }
}

/// Whether account data holds a fund record that has been created.
pub open spec fn fund_is_initialized(data: Seq<u8>) -> bool {
    fund_parse(data) is Some && fund_parse(data).unwrap().is_initialized
}

/// Why a fund cannot be created, if it cannot. In this order: one of the
/// three programs is not the one expected (`InvalidAccountData`); the
/// custodian or the manager has not signed (`MissingRequiredSignature`); the
/// fund record, the mint or the vault is not the account derived for it
/// (`InvalidSeeds` where nothing is derived, else `InvalidAccountData`); the
/// fund record exists already (`AccountAlreadyInitialized`).
pub open spec fn initialize_error(
    fund: Option<(Seq<u8>, u8)>,
    mint: Option<(Seq<u8>, u8)>,
    vault: Option<Seq<u8>>,
    punto_xero: Account,
    manager: Account,
    fund_account: Account,
    mint_account: Account,
    fund_vault: Account,
    system_program: Account,
    token_program: Account,
    associated_token_account_program: Account,
) -> Option<FundError> {
    if system_program.key@ != system_program_bytes() || token_program.key@
        != token_program_bytes() || associated_token_account_program.key@
        != associated_token_program_bytes() {
        Some(FundError::InvalidAccountData)
    } else if !punto_xero.is_signer || !manager.is_signer {
        Some(FundError::MissingRequiredSignature)
    } else if derivation_error(found_key(fund), fund_account.key@) is Some {
        derivation_error(found_key(fund), fund_account.key@)
    } else if derivation_error(found_key(mint), mint_account.key@) is Some {
        derivation_error(found_key(mint), mint_account.key@)
    } else if derivation_error(vault, fund_vault.key@) is Some {
        derivation_error(vault, fund_vault.key@)
    } else if fund_is_initialized(fund_account.data@) {
        Some(FundError::AccountAlreadyInitialized)
    } else {
        None
    }
}

/// The record of a fund at its creation.
pub open spec fn initialize_record(
    fund_bump: u8,
    mint_bump: u8,
    punto_xero: Seq<u8>,
    manager: Seq<u8>,
    mint: Seq<u8>,
    vault: Seq<u8>,
    share_value: u64,
    fund_name: Seq<char>,
    unix_timestamp: i64,
) -> FundAccountView {
    FundAccountView {
        is_initialized: true,
        bump_seed: fund_bump,
        punto_xero_master_pubkey: punto_xero,
        manager_master_pubkey: manager,
        fund_mint: mint,
        mint_bump_seed: mint_bump,
        fund_vault: vault,
        share_value,
        share_value_update: unix_timestamp,
        fund_name,
    }
}

/// The outcome of creating a fund, given the addresses derived for the fund
/// record, the mint and the vault: the error, if there is one, else the
/// record to write.
pub open spec fn initialize_decision(
    fund: Option<(Seq<u8>, u8)>,
    mint: Option<(Seq<u8>, u8)>,
    vault: Option<Seq<u8>>,
    punto_xero: Account,
    manager: Account,
    fund_account: Account,
    mint_account: Account,
    fund_vault: Account,
    system_program: Account,
    token_program: Account,
    associated_token_account_program: Account,
    share_value: u64,
    fund_name: Seq<char>,
    unix_timestamp: i64,
) -> Result<FundAccountView, FundError> {
    match initialize_error(
        fund,
        mint,
        vault,
        punto_xero,
        manager,
        fund_account,
        mint_account,
        fund_vault,
        system_program,
        token_program,
        associated_token_account_program,
    ) {
        Some(e) => Err(e),
        None => Ok(
            initialize_record(
                fund.unwrap().1,
                mint.unwrap().1,
                punto_xero.key@,
                manager.key@,
                mint_account.key@,
                fund_vault.key@,
                share_value,
                fund_name,
                unix_timestamp,
            ),
        ),
    }
}

/// The steps that create a fund: create the account of the record, signed
/// for the record's address; write the record; create the account of the
/// mint, signed for the mint's address; set up the mint with the fund record
/// as its authority; create the vault, signed for the record's address.
pub open spec fn initialize_plan(
    record: FundAccountView,
    program_id: Seq<u8>,
    fund: Seq<u8>,
    system_program: Seq<u8>,
    token_program: Seq<u8>,
    associated_token_account_program: Seq<u8>,
    rent_sysvar: Seq<u8>,
    sysvars: Sysvars,
) -> Seq<StepView> {
    let name = encode_utf8(record.fund_name);
    let payer = record.punto_xero_master_pubkey;
    let mint = record.fund_mint;
    let vault = record.fund_vault;
    seq![
        invoke_view(
            create_account_view(
                payer,
                fund,
                sysvars.rent_record,
                (151 + name.len()) as u64,
                program_id,
            ),
            seq![payer, fund, system_program],
            with_bump(fund_seeds(name), record.bump_seed),
        ),
        store_view(fund, fund_bytes(record)),
        invoke_view(
            create_account_view(payer, mint, sysvars.rent_mint, MINT_SPACE, token_program),
            seq![payer, mint, token_program, system_program],
            with_bump(mint_seeds(name), record.mint_bump_seed),
        ),
        invoke_view(
            token_view(
                seq![writable(mint, false), readonly(rent_sysvar_bytes(), false)],
                initialize_mint_data(SHARE_DECIMALS, fund, None),
            ),
            seq![token_program, mint, fund, rent_sysvar],
            with_bump(mint_seeds(name), record.mint_bump_seed),
        ),
        invoke_view(
            create_associated_view(payer, vault, fund, mint),
            seq![
                mint,
                vault,
                payer,
                fund,
                token_program,
                system_program,
                associated_token_account_program,
            ],
            with_bump(fund_seeds(name), record.bump_seed),
        ),
    ]
}

/// What creating a fund returns: the error of the decision, or the plan for
/// the record decided on.
pub open spec fn initialize_fund_spec(
    program_id: Address,
    punto_xero: Account,
    manager: Account,
    fund_account: Account,
    mint_account: Account,
    fund_vault: Account,
    system_program: Account,
    token_program: Account,
    associated_token_account_program: Account,
    rent_sysvar: Account,
    share_value: u64,
    fund_name: Seq<char>,
    sysvars: Sysvars,
) -> Result<Seq<StepView>, FundError> {
    match initialize_decision(
        found_within_limits(fund_seeds(encode_utf8(fund_name)), program_id@),
        found_within_limits(mint_seeds(encode_utf8(fund_name)), program_id@),
        associated_token_address(fund_account.key@, mint_account.key@),
        punto_xero,
        manager,
        fund_account,
        mint_account,
        fund_vault,
        system_program,
        token_program,
        associated_token_account_program,
        share_value,
        fund_name,
        sysvars.unix_timestamp,
    ) {
        Err(e) => Err(e),
        Ok(record) => Ok(
            initialize_plan(
                record,
                program_id@,
                fund_account.key@,
                system_program.key@,
                token_program.key@,
                associated_token_account_program.key@,
                rent_sysvar.key@,
                sysvars,
            ),
        ),
    }
}

impl FundAccount {
    /// Decides whether a fund can be created, given the addresses derived
    /// for its record, its mint and its vault; where it can, returns the
    /// record to write.
    pub fn decide_initialize(
        fund: Option<(Address, u8)>,
        mint: Option<(Address, u8)>,
        vault: Option<Address>,
        punto_xero: &Account,
        manager: &Account,
        fund_account: &Account,
        mint_account: &Account,
        fund_vault: &Account,
        system_program: &Account,
        token_program: &Account,
        associated_token_account_program: &Account,
        share_value: u64,
        fund_name: &str,
        unix_timestamp: i64,
    ) -> (r: Result<FundAccount, FundError>)
        ensures
            fund_result_view(r) == initialize_decision(
                found_view(fund),
                found_view(mint),
                address_view(vault),
                *punto_xero,
                *manager,
                *fund_account,
                *mint_account,
                *fund_vault,
                *system_program,
                *token_program,
                *associated_token_account_program,
                share_value,
                fund_name@,
                unix_timestamp,
            ),
    {
        if !system_program.key.same(&system_program_id()) {
            return Err(FundError::InvalidAccountData);
        }
        if !token_program.key.same(&token_program_id()) {
            return Err(FundError::InvalidAccountData);
        }
        if !associated_token_account_program.key.same(&associated_token_program_id()) {
            return Err(FundError::InvalidAccountData);
        }
        if !punto_xero.is_signer {
            return Err(FundError::MissingRequiredSignature);
        }
        if !manager.is_signer {
            return Err(FundError::MissingRequiredSignature);
        }
        let bump_seed = check_found(fund, &fund_account.key)?;
        let mint_bump_seed = check_found(mint, &mint_account.key)?;
        check_derived(vault, &fund_vault.key)?;
        match FundAccount::unpack(fund_account.data.as_slice()) {
            Ok(existing) => {
                if existing.is_initialized {
                    return Err(FundError::AccountAlreadyInitialized);
                }
            },
            Err(_) => {},
        }
        Ok(
            FundAccount {
                is_initialized: true,
                bump_seed,
                punto_xero_master_pubkey: punto_xero.key,
                manager_master_pubkey: manager.key,
                fund_mint: mint_account.key,
                mint_bump_seed,
                fund_vault: fund_vault.key,
                share_value,
                share_value_update: unix_timestamp,
                fund_name: fund_name.to_owned(),
            },
        )
    }

    /// Creates a fund: derives the addresses of its record, its mint and its
    /// vault, checks the accounts against them and the signers, and plans
    /// the record, the mint and the vault. Returns the error of the first
    /// check that fails, with no step planned.
    pub fn initialize_fund(
        program_id: &Address,
        punto_xero: &Account,
        manager: &Account,
        fund_account: &Account,
        mint_account: &Account,
        fund_vault: &Account,
        system_program: &Account,
        token_program: &Account,
        associated_token_account_program: &Account,
        rent_sysvar: &Account,
        share_value: u64,
        fund_name: &str,
        sysvars: &Sysvars,
    ) -> (r: Result<Vec<Step>, FundError>)
        ensures
            plan_result_view(r) == initialize_fund_spec(
                *program_id,
                *punto_xero,
                *manager,
                *fund_account,
                *mint_account,
                *fund_vault,
                *system_program,
                *token_program,
                *associated_token_account_program,
                *rent_sysvar,
                share_value,
                fund_name@,
                *sysvars,
            ),
    {
        let fund = find_fund_address(fund_name, program_id);
        let mint = find_mint_address(fund_name, program_id);
        let vault = find_associated_token_address(&fund_account.key, &mint_account.key);
        let record = FundAccount::decide_initialize(
            fund,
            mint,
            vault,
            punto_xero,
            manager,
            fund_account,
            mint_account,
            fund_vault,
            system_program,
            token_program,
            associated_token_account_program,
            share_value,
            fund_name,
            sysvars.unix_timestamp,
        )?;
        let ghost name = encode_utf8(fund_name@);
        assert(name.len() <= 32);
        let space = FundAccount::get_space(fund_name);
        let data = match record.pack() {
            Ok(data) => data,
            Err(e) => {
                return Err(e);
            },
        };
        let mut plan = empty_plan();

        let create_record = create_account(
            &punto_xero.key,
            &fund_account.key,
            sysvars.rent_record,
            space as u64,
            program_id,
        );
        let mut keys = no_keys();
        push_key(&mut keys, punto_xero.key);
        push_key(&mut keys, fund_account.key);
        push_key(&mut keys, system_program.key);
        assert(keys.deep_view() =~= seq![punto_xero.key@, fund_account.key@, system_program.key@]);
        push_step(
            &mut plan,
            Step::Invoke {
                instruction: create_record,
                accounts: keys,
                signer_seeds: fund_signer_seeds(fund_name, record.bump_seed),
            },
        );

        push_step(&mut plan, Step::Store { account: fund_account.key, data });

        let create_mint = create_account(
            &punto_xero.key,
            &mint_account.key,
            sysvars.rent_mint,
            MINT_SPACE,
            &token_program.key,
        );
        let mut keys = no_keys();
        push_key(&mut keys, punto_xero.key);
        push_key(&mut keys, mint_account.key);
        push_key(&mut keys, token_program.key);
        push_key(&mut keys, system_program.key);
        assert(keys.deep_view() =~= seq![
            punto_xero.key@,
            mint_account.key@,
            token_program.key@,
            system_program.key@,
        ]);
        push_step(
            &mut plan,
            Step::Invoke {
                instruction: create_mint,
                accounts: keys,
                signer_seeds: mint_signer_seeds(fund_name, record.mint_bump_seed),
            },
        );

        let set_up_mint = match initialize_mint(
            &token_program.key,
            &mint_account.key,
            &fund_account.key,
            None,
            SHARE_DECIMALS,
        ) {
            Some(instruction) => instruction,
            None => {
                return Err(FundError::InvalidAccountData);
            },
        };
        let mut keys = no_keys();
        push_key(&mut keys, token_program.key);
        push_key(&mut keys, mint_account.key);
        push_key(&mut keys, fund_account.key);
        push_key(&mut keys, rent_sysvar.key);
        assert(keys.deep_view() =~= seq![
            token_program.key@,
            mint_account.key@,
            fund_account.key@,
            rent_sysvar.key@,
        ]);
        push_step(
            &mut plan,
            Step::Invoke {
                instruction: set_up_mint,
                accounts: keys,
                signer_seeds: mint_signer_seeds(fund_name, record.mint_bump_seed),
            },
        );

        assert(associated_token_seeds(fund_account.key@, mint_account.key@) =~= seq![
            fund_account.key@,
            token_program.key@,
            mint_account.key@,
        ]);
        let create_vault = create_associated_token_account(
            &punto_xero.key,
            &fund_account.key,
            &mint_account.key,
            &token_program.key,
        );
        let mut keys = no_keys();
        push_key(&mut keys, mint_account.key);
        push_key(&mut keys, fund_vault.key);
        push_key(&mut keys, punto_xero.key);
        push_key(&mut keys, fund_account.key);
        push_key(&mut keys, token_program.key);
        push_key(&mut keys, system_program.key);
        push_key(&mut keys, associated_token_account_program.key);
        assert(keys.deep_view() =~= seq![
            mint_account.key@,
            fund_vault.key@,
            punto_xero.key@,
            fund_account.key@,
            token_program.key@,
            system_program.key@,
            associated_token_account_program.key@,
        ]);
        push_step(
            &mut plan,
            Step::Invoke {
                instruction: create_vault,
                accounts: keys,
                signer_seeds: fund_signer_seeds(fund_name, record.bump_seed),
            },
        );

        proof {
            let expected = initialize_plan(
                record@,
                program_id@,
                fund_account.key@,
                system_program.key@,
                token_program.key@,
                associated_token_account_program.key@,
                rent_sysvar.key@,
                *sysvars,
            );
            assert(plan_view(plan).len() == 5);
            assert(plan_view(plan)[0] == expected[0]);
            assert(plan_view(plan)[1] == expected[1]);
            assert(plan_view(plan)[2] == expected[2]);
            assert(plan_view(plan)[3] == expected[3]);
            assert(plan_view(plan)[4] == expected[4]);
            assert(plan_view(plan) =~= expected);
        }
        Ok(plan)
    }
}

/// A fund record read from bytes keeps the form of a record: its addresses
/// have the length of addresses, and its name can be written again.
pub proof fn lemma_parsed_fund(data: Seq<u8>)
    requires
        fund_parse(data) is Some,
    ensures
        fund_parse(data).unwrap().wf(),
        string_fits(fund_parse(data).unwrap().fund_name),
{
    lemma_auto_spec_u32_to_from_le_bytes();
    let n = fund_name_len(data);
    lemma_string_canonical(data.subrange(151, 151 + n));
}

/// The address of a fund record, rebuilt from the name supplied and the
/// bump stored in the record; the record's own error where there is none.
pub open spec fn rebuilt_fund_address(
    record: Result<FundAccountView, FundError>,
    name: Seq<u8>,
    program_id: Seq<u8>,
) -> Result<Seq<u8>, FundError> {
    match record {
        Ok(v) => created_result(with_bump(fund_seeds(name), v.bump_seed), program_id),
        Err(e) => Err(e),
    }
}

/// The outcome of setting a new share value, given the record read and the
/// address rebuilt for it. In this order: the custodian or the manager has
/// not signed (`MissingRequiredSignature`); the record is not owned by this
/// program (`IllegalOwner`); the account holds no record (`BorshIoError`);
/// the address cannot be rebuilt, or is not the account's
/// (`InvalidAccountData`); the custodian or the manager is not the one on
/// record (`MissingRequiredSignature`). Else the record with the new value
/// and the time of the change.
pub open spec fn update_decision(
    record: Result<FundAccountView, FundError>,
    rebuilt: Result<Seq<u8>, FundError>,
    program_id: Seq<u8>,
    punto_xero: Account,
    manager: Account,
    fund_account: Account,
    new_share_value: u64,
    unix_timestamp: i64,
) -> Result<FundAccountView, FundError> {
    if !punto_xero.is_signer || !manager.is_signer {
        Err(FundError::MissingRequiredSignature)
    } else if fund_account.owner@ != program_id {
        Err(FundError::IllegalOwner)
    } else {
        match record {
            Err(e) => Err(e),
            Ok(v) => {
                if rebuilt_error(rebuilt, fund_account.key@) is Some {
                    Err(rebuilt_error(rebuilt, fund_account.key@).unwrap())
                } else if v.punto_xero_master_pubkey != punto_xero.key@
                    || v.manager_master_pubkey != manager.key@ {
                    Err(FundError::MissingRequiredSignature)
                } else {
                    Ok(
                        FundAccountView {
                            share_value: new_share_value,
                            share_value_update: unix_timestamp,
                            ..v
                        },
                    )
                }
            },
        }
    }
}

/// What setting a new share value returns: the error of the decision, or
/// the one step that writes the changed record.
pub open spec fn update_share_value_spec(
    program_id: Address,
    punto_xero: Account,
    manager: Account,
    fund_account: Account,
    new_share_value: u64,
    fund_name: Seq<char>,
    sysvars: Sysvars,
) -> Result<Seq<StepView>, FundError> {
    let record = fund_unpacked(fund_parse(fund_account.data@));
    match update_decision(
        record,
        rebuilt_fund_address(record, encode_utf8(fund_name), program_id@),
        program_id@,
        punto_xero,
        manager,
        fund_account,
        new_share_value,
        sysvars.unix_timestamp,
    ) {
        Err(e) => Err(e),
        Ok(changed) => Ok(seq![store_view(fund_account.key@, fund_bytes(changed))]),
    }
}

/// What a purchase comes to.
#[derive(Debug, Clone, Copy, PartialEq, Eq, Structural)]
pub struct Purchase {
    /// The shares to mint.
    pub shares: u64,
    /// The bump with which the program signs for the fund record.
    pub bump_seed: u8,
    /// Whether the buyer's token account has to be created first.
    pub create_token_account: bool,
}

/// The outcome of buying shares, given the record read, the address
/// rebuilt for it and the address derived for the buyer's token account. In
/// this order: the custodian or the buyer has not signed
/// (`MissingRequiredSignature`); one of the three programs is not the one
/// expected (`InvalidAccountData`); the account holds no record
/// (`BorshIoError`); the address cannot be rebuilt, or is not the account's
/// (`InvalidAccountData`); the custodian is not the one on record
/// (`MissingRequiredSignature`); the mint is not the one on record
/// (`InvalidAccountData`); the amount cannot be converted
/// (`ArithmeticError`); the buyer's token account is not the one derived
/// (`InvalidSeeds` where nothing is derived, else `InvalidAccountData`).
/// Else the shares that the amount buys at the record's share value.
pub open spec fn purchase_decision(
    record: Result<FundAccountView, FundError>,
    rebuilt: Result<Seq<u8>, FundError>,
    buyer_token_address: Option<Seq<u8>>,
    punto_xero: Account,
    fund_account: Account,
    mint_account: Account,
    buyer: Account,
    buyer_ata: Account,
    system_program: Account,
    token_program: Account,
    associated_token_account_program: Account,
    amount_in_fiat: u64,
) -> Result<Purchase, FundError> {
    if !punto_xero.is_signer || !buyer.is_signer {
        Err(FundError::MissingRequiredSignature)
    } else if token_program.key@ != token_program_bytes() || system_program.key@
        != system_program_bytes() || associated_token_account_program.key@
        != associated_token_program_bytes() {
        Err(FundError::InvalidAccountData)
    } else {
        match record {
            Err(e) => Err(e),
            Ok(v) => {
                if rebuilt_error(rebuilt, fund_account.key@) is Some {
                    Err(rebuilt_error(rebuilt, fund_account.key@).unwrap())
                } else if v.punto_xero_master_pubkey != punto_xero.key@ {
                    Err(FundError::MissingRequiredSignature)
                } else if v.fund_mint != mint_account.key@ {
                    Err(FundError::InvalidAccountData)
                } else if divide_spec(amount_in_fiat, v.share_value) is None {
                    Err(FundError::Custom(CustomError::ArithmeticError))
                } else if derivation_error(buyer_token_address, buyer_ata.key@) is Some {
                    Err(derivation_error(buyer_token_address, buyer_ata.key@).unwrap())
                } else {
                    Ok(
                        Purchase {
                            shares: divide_spec(amount_in_fiat, v.share_value).unwrap(),
                            bump_seed: v.bump_seed,
                            create_token_account: buyer_ata.lamports == 0,
                        },
                    )
                }
            },
        }
    }
}

/// The step that creates the buyer's token account, paid by the custodian.
pub open spec fn create_buyer_account_step(
    punto_xero: Seq<u8>,
    mint: Seq<u8>,
    buyer: Seq<u8>,
    buyer_ata: Seq<u8>,
    system_program: Seq<u8>,
    token_program: Seq<u8>,
    associated_token_account_program: Seq<u8>,
) -> StepView {
    invoke_view(
        create_associated_view(punto_xero, buyer_ata, buyer, mint),
        seq![
            mint,
            buyer_ata,
            punto_xero,
            buyer,
            token_program,
            system_program,
            associated_token_account_program,
        ],
        Seq::<Seq<u8>>::empty(),
    )
}

/// The step that mints shares to the buyer's token account, signed for the
/// fund record, which is the mint's authority.
pub open spec fn mint_shares_step(
    purchase: Purchase,
    name: Seq<u8>,
    fund: Seq<u8>,
    mint: Seq<u8>,
    buyer: Seq<u8>,
    buyer_ata: Seq<u8>,
    token_program: Seq<u8>,
) -> StepView {
    invoke_view(
        token_view(signed_accounts(mint, buyer_ata, fund, fund), mint_to_data(purchase.shares)),
        seq![token_program, mint, buyer_ata, buyer, fund],
        with_bump(fund_seeds(name), purchase.bump_seed),
    )
}

/// The steps of a purchase: create the buyer's token account where it does
/// not exist yet, then mint the shares.
pub open spec fn purchase_plan(
    purchase: Purchase,
    name: Seq<u8>,
    punto_xero: Seq<u8>,
    fund: Seq<u8>,
    mint: Seq<u8>,
    buyer: Seq<u8>,
    buyer_ata: Seq<u8>,
    system_program: Seq<u8>,
    token_program: Seq<u8>,
    associated_token_account_program: Seq<u8>,
) -> Seq<StepView> {
    let mint_shares = mint_shares_step(purchase, name, fund, mint, buyer, buyer_ata, token_program);
    if purchase.create_token_account {
        seq![
            create_buyer_account_step(
                punto_xero,
                mint,
                buyer,
                buyer_ata,
                system_program,
                token_program,
                associated_token_account_program,
            ),
            mint_shares,
        ]
    } else {
        seq![mint_shares]
    }
}

/// What buying shares returns: the error of the decision, or the plan of
/// the purchase decided on.
pub open spec fn buy_fund_shares_spec(
    program_id: Address,
    punto_xero: Account,
    fund_account: Account,
    mint_account: Account,
    buyer: Account,
    buyer_ata: Account,
    system_program: Account,
    token_program: Account,
    associated_token_account_program: Account,
    amount_in_fiat: u64,
    fund_name: Seq<char>,
) -> Result<Seq<StepView>, FundError> {
    let record = fund_unpacked(fund_parse(fund_account.data@));
    match purchase_decision(
        record,
        rebuilt_fund_address(record, encode_utf8(fund_name), program_id@),
        associated_token_address(buyer.key@, mint_account.key@),
        punto_xero,
        fund_account,
        mint_account,
        buyer,
        buyer_ata,
        system_program,
        token_program,
        associated_token_account_program,
        amount_in_fiat,
    ) {
        Err(e) => Err(e),
        Ok(purchase) => Ok(
            purchase_plan(
                purchase,
                encode_utf8(fund_name),
                punto_xero.key@,
                fund_account.key@,
                mint_account.key@,
                buyer.key@,
                buyer_ata.key@,
                system_program.key@,
                token_program.key@,
                associated_token_account_program.key@,
            ),
        ),
    }
}

impl FundAccount {
    /// Rebuilds the address of a fund record from the name supplied and the
    /// bump that the record stores.
    pub fn rebuild_address(
        record: &Result<FundAccount, FundError>,
        fund_name: &str,
        program_id: &Address,
    ) -> (r: Result<Address, FundError>)
        ensures
            created_view(r) == rebuilt_fund_address(
                fund_result_view(*record),
                encode_utf8(fund_name@),
                program_id@,
            ),
    {
        match record {
            Ok(v) => create_fund_address(fund_name, v.bump_seed, program_id),
            Err(e) => Err(*e),
        }
    }

    /// Decides whether the share value can be set, given the record read
    /// and the address rebuilt for it; where it can, returns the changed
    /// record.
    pub fn decide_update(
        record: Result<FundAccount, FundError>,
        rebuilt: Result<Address, FundError>,
        program_id: &Address,
        punto_xero: &Account,
        manager: &Account,
        fund_account: &Account,
        new_share_value: u64,
        unix_timestamp: i64,
    ) -> (r: Result<FundAccount, FundError>)
        ensures
            fund_result_view(r) == update_decision(
                fund_result_view(record),
                created_view(rebuilt),
                program_id@,
                *punto_xero,
                *manager,
                *fund_account,
                new_share_value,
                unix_timestamp,
            ),
    {
        if !punto_xero.is_signer {
            return Err(FundError::MissingRequiredSignature);
        }
        if !manager.is_signer {
            return Err(FundError::MissingRequiredSignature);
        }
        if !fund_account.owner.same(program_id) {
            return Err(FundError::IllegalOwner);
        }
        let mut account_data = record?;
        check_rebuilt(rebuilt, &fund_account.key)?;
        if !account_data.punto_xero_master_pubkey.same(&punto_xero.key) {
            return Err(FundError::MissingRequiredSignature);
        }
        if !account_data.manager_master_pubkey.same(&manager.key) {
            return Err(FundError::MissingRequiredSignature);
        }
        account_data.share_value = new_share_value;
        account_data.share_value_update = unix_timestamp;
        Ok(account_data)
    }

    /// Sets a new share value. Both the custodian and the manager must sign
    /// and be the authorities that the record names. The value itself is
    /// taken as it is.
    pub fn update_share_value(
        program_id: &Address,
        punto_xero: &Account,
        manager: &Account,
        fund_account: &Account,
        new_share_value: u64,
        fund_name: String,
        sysvars: &Sysvars,
    ) -> (r: Result<Vec<Step>, FundError>)
        ensures
            plan_result_view(r) == update_share_value_spec(
                *program_id,
                *punto_xero,
                *manager,
                *fund_account,
                new_share_value,
                fund_name@,
                *sysvars,
            ),
            r is Ok ==> punto_xero.is_signer && manager.is_signer && fund_parse(
                fund_account.data@,
            ) is Some && fund_parse(fund_account.data@).unwrap().punto_xero_master_pubkey
                == punto_xero.key@ && fund_parse(fund_account.data@).unwrap().manager_master_pubkey
                == manager.key@,
    {
        let record = FundAccount::unpack(fund_account.data.as_slice());
        let rebuilt = FundAccount::rebuild_address(&record, fund_name.as_str(), program_id);
        let changed = FundAccount::decide_update(
            record,
            rebuilt,
            program_id,
            punto_xero,
            manager,
            fund_account,
            new_share_value,
            sysvars.unix_timestamp,
        )?;
        proof {
            lemma_parsed_fund(fund_account.data@);
        }
        let data = match changed.pack() {
            Ok(data) => data,
            Err(e) => {
                return Err(e);
            },
        };
        let mut plan = empty_plan();
        push_step(&mut plan, Step::Store { account: fund_account.key, data });
        assert(plan_view(plan) =~= seq![store_view(fund_account.key@, fund_bytes(changed@))]);
        Ok(plan)
    }

    /// Decides whether shares can be bought, given the record read, the
    /// address rebuilt for it and the address derived for the buyer's token
    /// account; where they can, returns how many.
    pub fn decide_purchase(
        record: Result<FundAccount, FundError>,
        rebuilt: Result<Address, FundError>,
        buyer_token_address: Option<Address>,
        punto_xero: &Account,
        fund_account: &Account,
        mint_account: &Account,
        buyer: &Account,
        buyer_ata: &Account,
        system_program: &Account,
        token_program: &Account,
        associated_token_account_program: &Account,
        amount_in_fiat: u64,
    ) -> (r: Result<Purchase, FundError>)
        ensures
            r == purchase_decision(
                fund_result_view(record),
                created_view(rebuilt),
                address_view(buyer_token_address),
                *punto_xero,
                *fund_account,
                *mint_account,
                *buyer,
                *buyer_ata,
                *system_program,
                *token_program,
                *associated_token_account_program,
                amount_in_fiat,
            ),
    {
        if !punto_xero.is_signer {
            return Err(FundError::MissingRequiredSignature);
        }
        if !buyer.is_signer {
            return Err(FundError::MissingRequiredSignature);
        }
        if !token_program.key.same(&token_program_id()) {
            return Err(FundError::InvalidAccountData);
        }
        if !system_program.key.same(&system_program_id()) {
            return Err(FundError::InvalidAccountData);
        }
        if !associated_token_account_program.key.same(&associated_token_program_id()) {
            return Err(FundError::InvalidAccountData);
        }
        let fund_account_data = record?;
        check_rebuilt(rebuilt, &fund_account.key)?;
        if !fund_account_data.punto_xero_master_pubkey.same(&punto_xero.key) {
            return Err(FundError::MissingRequiredSignature);
        }
        if !fund_account_data.fund_mint.same(&mint_account.key) {
            return Err(FundError::InvalidAccountData);
        }
        let shares = fixed_point_divide_checked(amount_in_fiat, fund_account_data.share_value)?;
        check_derived(buyer_token_address, &buyer_ata.key)?;
        Ok(
            Purchase {
                shares,
                bump_seed: fund_account_data.bump_seed,
                create_token_account: buyer_ata.lamports == 0,
            },
        )
    }

    /// Sells shares for a fiat amount: the amount divided by the share
    /// value on record. Plans the creation of the buyer's token account
    /// where it does not exist, and the minting of the shares, signed for
    /// the fund record. The record itself is not changed.
    pub fn buy_fund_shares(
        program_id: &Address,
        punto_xero: &Account,
        fund_account: &Account,
        mint_account: &Account,
        buyer: &Account,
        buyer_ata: &Account,
        system_program: &Account,
        token_program: &Account,
        associated_token_account_program: &Account,
        amount_in_fiat: u64,
        fund_name: &str,
    ) -> (r: Result<Vec<Step>, FundError>)
        ensures
            plan_result_view(r) == buy_fund_shares_spec(
                *program_id,
                *punto_xero,
                *fund_account,
                *mint_account,
                *buyer,
                *buyer_ata,
                *system_program,
                *token_program,
                *associated_token_account_program,
                amount_in_fiat,
                fund_name@,
            ),
    {
        let record = FundAccount::unpack(fund_account.data.as_slice());
        let rebuilt = FundAccount::rebuild_address(&record, fund_name, program_id);
        let buyer_token_address = find_associated_token_address(&buyer.key, &mint_account.key);
        let purchase = FundAccount::decide_purchase(
            record,
            rebuilt,
            buyer_token_address,
            punto_xero,
            fund_account,
            mint_account,
            buyer,
            buyer_ata,
            system_program,
            token_program,
            associated_token_account_program,
            amount_in_fiat,
        )?;
        let mut plan = empty_plan();
        if purchase.create_token_account {
            assert(associated_token_seeds(buyer.key@, mint_account.key@) =~= seq![
                buyer.key@,
                token_program.key@,
                mint_account.key@,
            ]);
            let create_buyer_account = create_associated_token_account(
                &punto_xero.key,
                &buyer.key,
                &mint_account.key,
                &token_program.key,
            );
            let mut keys = no_keys();
            push_key(&mut keys, mint_account.key);
            push_key(&mut keys, buyer_ata.key);
            push_key(&mut keys, punto_xero.key);
            push_key(&mut keys, buyer.key);
            push_key(&mut keys, token_program.key);
            push_key(&mut keys, system_program.key);
            push_key(&mut keys, associated_token_account_program.key);
            assert(keys.deep_view() =~= seq![
                mint_account.key@,
                buyer_ata.key@,
                punto_xero.key@,
                buyer.key@,
                token_program.key@,
                system_program.key@,
                associated_token_account_program.key@,
            ]);
            push_step(
                &mut plan,
                Step::Invoke {
                    instruction: create_buyer_account,
                    accounts: keys,
                    signer_seeds: no_seeds(),
                },
            );
        }
        let mint_shares = match mint_to(
            &token_program.key,
            &mint_account.key,
            &buyer_ata.key,
            &fund_account.key,
            &fund_account.key,
            purchase.shares,
        ) {
            Some(instruction) => instruction,
            None => {
                return Err(FundError::InvalidAccountData);
            },
        };
        let mut keys = no_keys();
        push_key(&mut keys, token_program.key);
        push_key(&mut keys, mint_account.key);
        push_key(&mut keys, buyer_ata.key);
        push_key(&mut keys, buyer.key);
        push_key(&mut keys, fund_account.key);
        assert(keys.deep_view() =~= seq![
            token_program.key@,
            mint_account.key@,
            buyer_ata.key@,
            buyer.key@,
            fund_account.key@,
        ]);
        push_step(
            &mut plan,
            Step::Invoke {
                instruction: mint_shares,
                accounts: keys,
                signer_seeds: fund_signer_seeds(fund_name, purchase.bump_seed),
            },
        );
        proof {
            let expected = purchase_plan(
                purchase,
                encode_utf8(fund_name@),
                punto_xero.key@,
                fund_account.key@,
                mint_account.key@,
                buyer.key@,
                buyer_ata.key@,
                system_program.key@,
                token_program.key@,
                associated_token_account_program.key@,
            );
            if purchase.create_token_account {
                assert(plan_view(plan)[0] == expected[0]);
                assert(plan_view(plan)[1] == expected[1]);
            } else {
                assert(plan_view(plan)[0] == expected[0]);
            }
            assert(plan_view(plan) =~= expected);
        }
        Ok(plan)
    }
}

/// A fund is created once. Where creating a fund succeeds, the record that
/// the plan writes reads back with the share value and the name given, and
/// creating the fund again, once the account holds that record, fails with
/// `AccountAlreadyInitialized`, whatever share value is given then.
pub proof fn lemma_initialize_once(
    program_id: Address,
    punto_xero: Account,
    manager: Account,
    fund_account: Account,
    mint_account: Account,
    fund_vault: Account,
    system_program: Account,
    token_program: Account,
    associated_token_account_program: Account,
    rent_sysvar: Account,
    share_value: u64,
    fund_name: Seq<char>,
    sysvars: Sysvars,
    created: Account,
    later_share_value: u64,
    later_sysvars: Sysvars,
)
    requires
        initialize_fund_spec(
            program_id,
            punto_xero,
            manager,
            fund_account,
            mint_account,
            fund_vault,
            system_program,
            token_program,
            associated_token_account_program,
            rent_sysvar,
            share_value,
            fund_name,
            sysvars,
        ) is Ok,
        created.key == fund_account.key,
        initialize_fund_spec(
            program_id,
            punto_xero,
            manager,
            fund_account,
            mint_account,
            fund_vault,
            system_program,
            token_program,
            associated_token_account_program,
            rent_sysvar,
            share_value,
            fund_name,
            sysvars,
        ).unwrap()[1] == store_view(created.key@, created.data@),
    ensures
        fund_parse(created.data@) is Some,
        fund_parse(created.data@).unwrap().is_initialized,
        fund_parse(created.data@).unwrap().share_value == share_value,
        fund_parse(created.data@).unwrap().fund_name == fund_name,
        fund_parse(created.data@).unwrap().punto_xero_master_pubkey == punto_xero.key@,
        fund_parse(created.data@).unwrap().manager_master_pubkey == manager.key@,
        initialize_fund_spec(
            program_id,
            punto_xero,
            manager,
            created,
            mint_account,
            fund_vault,
            system_program,
            token_program,
            associated_token_account_program,
            rent_sysvar,
            later_share_value,
            fund_name,
            later_sysvars,
        ) == Err::<Seq<StepView>, FundError>(FundError::AccountAlreadyInitialized),
{
    let name = encode_utf8(fund_name);
    let record = initialize_decision(
        found_within_limits(fund_seeds(name), program_id@),
        found_within_limits(mint_seeds(name), program_id@),
        associated_token_address(fund_account.key@, mint_account.key@),
        punto_xero,
        manager,
        fund_account,
        mint_account,
        fund_vault,
        system_program,
        token_program,
        associated_token_account_program,
        share_value,
        fund_name,
        sysvars.unix_timestamp,
    ).unwrap();
    lemma_found_name_fits(name, name, program_id@);
    assert(record.wf());
    lemma_fund_round_trip(record, Seq::<u8>::empty());
    assert(fund_bytes(record) + Seq::<u8>::empty() =~= fund_bytes(record));
    assert(created.data@ == fund_bytes(record));
}

/// The share value changes only on the word of both authorities. Where
/// setting a share value succeeds, the custodian and the manager have both
/// signed and are the two that the record names; and the record that the
/// plan writes reads back with the new share value and is otherwise the
/// record as it was, but for the time of the change.
pub proof fn lemma_update_needs_both_authorities(
    program_id: Address,
    punto_xero: Account,
    manager: Account,
    fund_account: Account,
    new_share_value: u64,
    fund_name: Seq<char>,
    sysvars: Sysvars,
)
    requires
        update_share_value_spec(
            program_id,
            punto_xero,
            manager,
            fund_account,
            new_share_value,
            fund_name,
            sysvars,
        ) is Ok,
    ensures
        punto_xero.is_signer,
        manager.is_signer,
        fund_account.owner@ == program_id@,
        fund_parse(fund_account.data@) is Some,
        fund_parse(fund_account.data@).unwrap().punto_xero_master_pubkey == punto_xero.key@,
        fund_parse(fund_account.data@).unwrap().manager_master_pubkey == manager.key@,
        update_share_value_spec(
            program_id,
            punto_xero,
            manager,
            fund_account,
            new_share_value,
            fund_name,
            sysvars,
        ).unwrap().len() == 1,
        update_share_value_spec(
            program_id,
            punto_xero,
            manager,
            fund_account,
            new_share_value,
            fund_name,
            sysvars,
        ).unwrap()[0] is Store,
        fund_parse(
            update_share_value_spec(
                program_id,
                punto_xero,
                manager,
                fund_account,
                new_share_value,
                fund_name,
                sysvars,
            ).unwrap()[0]->Store_data,
        ) == Some(
            FundAccountView {
                share_value: new_share_value,
                share_value_update: sysvars.unix_timestamp,
                ..fund_parse(fund_account.data@).unwrap()
            },
        ),
{
    lemma_parsed_fund(fund_account.data@);
    let before = fund_parse(fund_account.data@).unwrap();
    let after = FundAccountView {
        share_value: new_share_value,
        share_value_update: sysvars.unix_timestamp,
        ..before
    };
    lemma_fund_round_trip(after, Seq::<u8>::empty());
    assert(fund_bytes(after) + Seq::<u8>::empty() =~= fund_bytes(after));
}

/// A fund that has been created can be repriced by its two authorities.
/// Let creating a fund have succeeded, let the account hold the record that
/// was written and be owned by this program, and let the bump in the record
/// rebuild the account's address, as the bump that a search finds does.
/// Then setting a share value succeeds whenever the same custodian and the
/// same manager sign, whatever the value.
pub proof fn lemma_created_fund_can_be_repriced(
    program_id: Address,
    punto_xero: Account,
    manager: Account,
    fund_account: Account,
    mint_account: Account,
    fund_vault: Account,
    system_program: Account,
    token_program: Account,
    associated_token_account_program: Account,
    rent_sysvar: Account,
    share_value: u64,
    fund_name: Seq<char>,
    sysvars: Sysvars,
    created: Account,
    later_punto_xero: Account,
    later_manager: Account,
    new_share_value: u64,
    later_sysvars: Sysvars,
)
    requires
        initialize_fund_spec(
            program_id,
            punto_xero,
            manager,
            fund_account,
            mint_account,
            fund_vault,
            system_program,
            token_program,
            associated_token_account_program,
            rent_sysvar,
            share_value,
            fund_name,
            sysvars,
        ) is Ok,
        created.key == fund_account.key,
        created.owner@ == program_id@,
        initialize_fund_spec(
            program_id,
            punto_xero,
            manager,
            fund_account,
            mint_account,
            fund_vault,
            system_program,
            token_program,
            associated_token_account_program,
            rent_sysvar,
            share_value,
            fund_name,
            sysvars,
        ).unwrap()[1] == store_view(created.key@, created.data@),
        created_result(
            with_bump(
                fund_seeds(encode_utf8(fund_name)),
                found_within_limits(
                    fund_seeds(encode_utf8(fund_name)),
                    program_id@,
                ).unwrap().1,
            ),
            program_id@,
        ) == Ok::<Seq<u8>, FundError>(fund_account.key@),
        later_punto_xero.key == punto_xero.key,
        later_manager.key == manager.key,
        later_punto_xero.is_signer,
        later_manager.is_signer,
    ensures
        update_share_value_spec(
            program_id,
            later_punto_xero,
            later_manager,
            created,
            new_share_value,
            fund_name,
            later_sysvars,
        ) is Ok,
{
    lemma_initialize_once(
        program_id,
        punto_xero,
        manager,
        fund_account,
        mint_account,
        fund_vault,
        system_program,
        token_program,
        associated_token_account_program,
        rent_sysvar,
        share_value,
        fund_name,
        sysvars,
        created,
        share_value,
        sysvars,
    );
    let name = encode_utf8(fund_name);
    let record = initialize_decision(
        found_within_limits(fund_seeds(name), program_id@),
        found_within_limits(mint_seeds(name), program_id@),
        associated_token_address(fund_account.key@, mint_account.key@),
        punto_xero,
        manager,
        fund_account,
        mint_account,
        fund_vault,
        system_program,
        token_program,
        associated_token_account_program,
        share_value,
        fund_name,
        sysvars.unix_timestamp,
    ).unwrap();
    lemma_found_name_fits(name, name, program_id@);
    lemma_fund_round_trip(record, Seq::<u8>::empty());
    assert(fund_bytes(record) + Seq::<u8>::empty() =~= fund_bytes(record));
    assert(fund_parse(created.data@) == Some(record));
}

/// The record written at a fund's creation fills the account created for
/// it. Where creating a fund succeeds, its plan asks for an account of the
/// space that the record takes, and carrying out the write on an account of
/// that space leaves the record's bytes as the account's data, which read
/// back as the record.
pub proof fn lemma_created_account_holds_record(
    program_id: Address,
    punto_xero: Account,
    manager: Account,
    fund_account: Account,
    mint_account: Account,
    fund_vault: Account,
    system_program: Account,
    token_program: Account,
    associated_token_account_program: Account,
    rent_sysvar: Account,
    share_value: u64,
    fund_name: Seq<char>,
    sysvars: Sysvars,
    allocated: Account,
)
    requires
        initialize_fund_spec(
            program_id,
            punto_xero,
            manager,
            fund_account,
            mint_account,
            fund_vault,
            system_program,
            token_program,
            associated_token_account_program,
            rent_sysvar,
            share_value,
            fund_name,
            sysvars,
        ) is Ok,
        allocated.key == fund_account.key,
        allocated.data@.len() == 151 + encode_utf8(fund_name).len(),
    ensures
        ({
            let plan = initialize_fund_spec(
                program_id,
                punto_xero,
                manager,
                fund_account,
                mint_account,
                fund_vault,
                system_program,
                token_program,
                associated_token_account_program,
                rent_sysvar,
                share_value,
                fund_name,
                sysvars,
            ).unwrap();
            let created = after_step(allocated@, plan[1]);
            &&& plan.len() == 5
            &&& plan[0] is Invoke
            &&& plan[0]->Invoke_instruction == create_account_view(
                punto_xero.key@,
                fund_account.key@,
                sysvars.rent_record,
                allocated.data@.len() as u64,
                program_id@,
            )
            &&& created is Ok
            &&& plan[1] == store_view(fund_account.key@, created.unwrap().data)
            &&& fund_parse(created.unwrap().data) is Some
            &&& fund_parse(created.unwrap().data).unwrap().share_value == share_value
            &&& fund_parse(created.unwrap().data).unwrap().fund_name == fund_name
        }),
{
    let name = encode_utf8(fund_name);
    let record = initialize_decision(
        found_within_limits(fund_seeds(name), program_id@),
        found_within_limits(mint_seeds(name), program_id@),
        associated_token_address(fund_account.key@, mint_account.key@),
        punto_xero,
        manager,
        fund_account,
        mint_account,
        fund_vault,
        system_program,
        token_program,
        associated_token_account_program,
        share_value,
        fund_name,
        sysvars.unix_timestamp,
    ).unwrap();
    lemma_found_name_fits(name, name, program_id@);
    lemma_fund_round_trip(record, Seq::<u8>::empty());
    assert(fund_bytes(record) + Seq::<u8>::empty() =~= fund_bytes(record));
    lemma_written_fills(allocated.data@, fund_bytes(record));
}

} // verus!
