// A fund's life from creation to a settled redemption, run against a small
// host that carries out the steps the library plans.

use px_fund::account::{Account, Instruction, Step, Sysvars};
use px_fund::address::{
    associated_token_program_id, find_associated_token_address, find_fund_address,
    find_mint_address, find_redemption_address, rent_sysvar_id, system_program_id,
    token_program_id, Address,
};
use px_fund::errors::{CustomError, FundError};
use px_fund::instructions::{
    BuyFundSharesPayload, FundInitPayload, ProcessSharesRedemptionPayload, RedeemSharesPayload,
    UpdateShareValuePayload,
};
use px_fund::process_instruction;
use px_fund::state::fund_account::FundAccount;
use px_fund::state::share_redemption::ShareRedemption;
use solana_program::rent::Rent;
use spl_token::instruction::TokenInstruction;

const SCALE_FACTOR: u64 = 1_000_000;

struct TestSetup {
    program_id: Address,
    punto_xero_master: Address,
    fund_manager_master: Address,
    buyer: Address,
    fund_account: Address,
    fund_mint: Address,
    fund_vault: Address,
    fund_name: String,
    host: Host,
}

struct Host {
    accounts: Vec<Account>,
    balances: Vec<(Address, u64)>,
    clock: i64,
}

impl Host {
    fn account(&self, key: Address, is_signer: bool) -> Account {
        for a in &self.accounts {
            if a.key == key {
                let mut found = a.clone();
                found.is_signer = is_signer;
                return found;
            }
        }
        Account { key, owner: system_program_id(), lamports: 0, data: Vec::new(), is_signer }
    }

    fn slot(&mut self, key: Address) -> &mut Account {
        if !self.accounts.iter().any(|a| a.key == key) {
            let fresh = self.account(key, false);
            self.accounts.push(fresh);
        }
        self.accounts.iter_mut().find(|a| a.key == key).unwrap()
    }

    fn balance(&self, key: Address) -> Option<u64> {
        self.balances.iter().find(|(k, _)| *k == key).map(|(_, amount)| *amount)
    }

    fn balance_mut(&mut self, key: Address) -> &mut u64 {
        &mut self.balances.iter_mut().find(|(k, _)| *k == key).unwrap().1
    }

    fn sysvars(&self, record_space: usize) -> Sysvars {
        let rent = Rent::default();
        Sysvars {
            unix_timestamp: self.clock,
            rent_record: rent.minimum_balance(record_space),
            rent_mint: rent.minimum_balance(82),
            rent_empty: rent.minimum_balance(0),
        }
    }

    fn invoke(&mut self, instruction: &Instruction) {
        if instruction.program_id == system_program_id() {
            let data = &instruction.data;
            assert_eq!(&data[0..4], &[0u8, 0, 0, 0]);
            let lamports = u64::from_le_bytes(data[4..12].try_into().unwrap());
            let space = u64::from_le_bytes(data[12..20].try_into().unwrap());
            let owner = Address::new(data[20..52].try_into().unwrap());
            let payer = instruction.accounts[0].pubkey;
            let created = instruction.accounts[1].pubkey;
            assert!(self.account(created, false).data.is_empty(), "account in use");
            self.slot(payer).lamports -= lamports;
            let slot = self.slot(created);
            slot.lamports = lamports;
            slot.owner = owner;
            slot.data = vec![0u8; space as usize];
        } else if instruction.program_id == associated_token_program_id() {
            assert_eq!(instruction.data, vec![0u8]);
            let created = instruction.accounts[1].pubkey;
            assert!(self.balance(created).is_none(), "token account exists");
            self.balances.push((created, 0));
            self.slot(created).lamports = Rent::default().minimum_balance(165);
        } else if instruction.program_id == token_program_id() {
            let first = instruction.accounts[0].pubkey;
            let second = instruction.accounts[1].pubkey;
            match TokenInstruction::unpack(&instruction.data).unwrap() {
                TokenInstruction::InitializeMint { decimals, .. } => assert_eq!(decimals, 6),
                TokenInstruction::MintTo { amount } => *self.balance_mut(second) += amount,
                TokenInstruction::Transfer { amount } => {
                    *self.balance_mut(first) -= amount;
                    *self.balance_mut(second) += amount;
                }
                TokenInstruction::Burn { amount } => *self.balance_mut(first) -= amount,
                _ => panic!("a token instruction that the fund never plans"),
            }
        } else {
            panic!("a call of a program that the fund never calls");
        }
    }

    fn apply(&mut self, steps: &[Step]) {
        for step in steps {
            match step {
                Step::Invoke { instruction, accounts, .. } => {
                    for meta in &instruction.accounts {
                        assert!(accounts.contains(&meta.pubkey) || meta.pubkey == rent_sysvar_id());
                    }
                    self.invoke(instruction)
                }
                Step::Store { account, .. } => {
                    self.slot(*account).carry_out(step).unwrap();
                }
                Step::Release { account, recipient, .. } => {
                    self.slot(*account).carry_out(step).unwrap();
                    self.slot(*recipient).carry_out(step).unwrap();
                }
            }
        }
    }
}

fn request(discriminator: u8, payload: Vec<u8>) -> Vec<u8> {
    [&[discriminator][..], &payload].concat()
}

fn get_setup() -> TestSetup {
    let program_id = Address::new([7u8; 32]);
    let punto_xero_master = Address::new([1u8; 32]);
    let fund_manager_master = Address::new([2u8; 32]);
    let buyer = Address::new([3u8; 32]);
    let fund_name = String::from("PuntoXero");
    let (fund_account, _fund_bump_seed) = find_fund_address(&fund_name, &program_id).unwrap();
    let (fund_mint, _mint_bump_seed) = find_mint_address(&fund_name, &program_id).unwrap();
    let fund_vault = find_associated_token_address(&fund_account, &fund_mint).unwrap();
    let mut host = Host { accounts: Vec::new(), balances: Vec::new(), clock: 1_700_000_000 };
    host.slot(punto_xero_master).lamports = 10_000_000_000;
    TestSetup {
        program_id,
        punto_xero_master,
        fund_manager_master,
        buyer,
        fund_account,
        fund_mint,
        fund_vault,
        fund_name,
        host,
    }
}

fn try_initialize(setup: &TestSetup, share_value: u64) -> Result<Vec<Step>, FundError> {
    let payload = FundInitPayload { share_value, fund_name: setup.fund_name.clone() };
    let data = request(0, payload.try_to_vec().unwrap());
    let host = &setup.host;
    let accounts = vec![
        host.account(setup.punto_xero_master, true),
        host.account(setup.fund_manager_master, true),
        host.account(setup.fund_account, false),
        host.account(setup.fund_mint, false),
        host.account(setup.fund_vault, false),
        host.account(system_program_id(), false),
        host.account(token_program_id(), false),
        host.account(associated_token_program_id(), false),
        host.account(rent_sysvar_id(), false),
    ];
    let space = FundAccount::get_space(&setup.fund_name);
    process_instruction(&setup.program_id, &accounts, &data, &host.sysvars(space))
}

fn initialize_fund_and_mint(setup: &mut TestSetup) {
    let steps = try_initialize(setup, 10_000 * SCALE_FACTOR).unwrap();
    setup.host.apply(&steps);
}

fn try_update(
    setup: &TestSetup,
    new_share_value: u64,
    custodian: Account,
    manager: Account,
) -> Result<Vec<Step>, FundError> {
    let payload = UpdateShareValuePayload { new_share_value, fund_name: setup.fund_name.clone() };
    let data = request(1, payload.try_to_vec().unwrap());
    let accounts = vec![custodian, manager, setup.host.account(setup.fund_account, false)];
    process_instruction(&setup.program_id, &accounts, &data, &setup.host.sysvars(0))
}

fn try_buy(setup: &TestSetup, amount_in_fiat: u64) -> Result<Vec<Step>, FundError> {
    let buyer_ata = find_associated_token_address(&setup.buyer, &setup.fund_mint).unwrap();
    let payload = BuyFundSharesPayload { amount_in_fiat, fund_name: setup.fund_name.clone() };
    let data = request(2, payload.try_to_vec().unwrap());
    let host = &setup.host;
    let accounts = vec![
        host.account(setup.punto_xero_master, true),
        host.account(setup.fund_account, false),
        host.account(setup.fund_mint, false),
        host.account(setup.buyer, true),
        host.account(buyer_ata, false),
        host.account(system_program_id(), false),
        host.account(token_program_id(), false),
        host.account(associated_token_program_id(), false),
    ];
    process_instruction(&setup.program_id, &accounts, &data, &host.sysvars(0))
}

fn buy_shares(setup: &mut TestSetup) {
    let steps = try_buy(setup, 20_000 * SCALE_FACTOR).unwrap();
    setup.host.apply(&steps);
}

fn redemption_address(setup: &TestSetup) -> Address {
    find_redemption_address(&setup.fund_name, &setup.buyer, &setup.program_id).unwrap().0
}

fn try_redeem(setup: &TestSetup, shares_to_redeem: u64) -> Result<Vec<Step>, FundError> {
    let buyer_ata = find_associated_token_address(&setup.buyer, &setup.fund_mint).unwrap();
    let payload = RedeemSharesPayload { shares_to_redeem, fund_name: setup.fund_name.clone() };
    let data = request(3, payload.try_to_vec().unwrap());
    let host = &setup.host;
    let accounts = vec![
        host.account(setup.punto_xero_master, true),
        host.account(setup.fund_account, false),
        host.account(setup.fund_mint, false),
        host.account(redemption_address(setup), false),
        host.account(setup.fund_vault, false),
        host.account(setup.buyer, true),
        host.account(buyer_ata, false),
        host.account(token_program_id(), false),
        host.account(system_program_id(), false),
    ];
    process_instruction(&setup.program_id, &accounts, &data, &host.sysvars(ShareRedemption::LEN))
}

fn redeem_shares(setup: &mut TestSetup) {
    let steps = try_redeem(setup, 1 * SCALE_FACTOR).unwrap();
    setup.host.apply(&steps);
}

fn try_process(setup: &TestSetup, amount_payed: u64) -> Result<Vec<Step>, FundError> {
    let payload =
        ProcessSharesRedemptionPayload { amount_payed, fund_name: setup.fund_name.clone() };
    let data = request(4, payload.try_to_vec().unwrap());
    let host = &setup.host;
    let accounts = vec![
        host.account(setup.punto_xero_master, true),
        host.account(setup.fund_account, false),
        host.account(setup.fund_mint, false),
        host.account(redemption_address(setup), false),
        host.account(setup.fund_vault, false),
        host.account(setup.buyer, false),
        host.account(token_program_id(), false),
        host.account(system_program_id(), false),
    ];
    process_instruction(&setup.program_id, &accounts, &data, &host.sysvars(0))
}

fn process_share_redemption(setup: &mut TestSetup) {
    let steps = try_process(setup, 10_000 * SCALE_FACTOR).unwrap();
    setup.host.apply(&steps);
}

#[test]
fn test_fund_initialization() {
    let mut setup = get_setup();

    initialize_fund_and_mint(&mut setup);

    let fund_account_info = setup.host.account(setup.fund_account, false);
    assert_eq!(fund_account_info.owner, setup.program_id);
    assert_eq!(fund_account_info.data.len(), FundAccount::get_space(&setup.fund_name));

    let fund_account_data = FundAccount::unpack(&fund_account_info.data).unwrap();

    assert_eq!(&fund_account_data.fund_name, &setup.fund_name);
    assert_eq!(&fund_account_data.fund_mint, &setup.fund_mint);
    assert_eq!(&fund_account_data.fund_vault, &setup.fund_vault);
    assert_eq!(fund_account_data.share_value, 10_000 * SCALE_FACTOR);
    assert!(fund_account_data.is_initialized());
    assert_eq!(fund_account_data.punto_xero_master_pubkey, setup.punto_xero_master);
    assert_eq!(fund_account_data.manager_master_pubkey, setup.fund_manager_master);
    assert_eq!(fund_account_data.share_value_update, 1_700_000_000);
    assert_eq!(setup.host.account(setup.fund_mint, false).owner, token_program_id());
    assert_eq!(setup.host.account(setup.fund_mint, false).data.len(), 82);
    assert_eq!(setup.host.balance(setup.fund_vault), Some(0));
}

#[test]
fn test_update_share_value() {
    let mut setup = get_setup();

    initialize_fund_and_mint(&mut setup);

    let new_share_value = 11000 * SCALE_FACTOR;
    setup.host.clock = 1_700_000_500;
    let steps = try_update(
        &setup,
        new_share_value,
        setup.host.account(setup.punto_xero_master, true),
        setup.host.account(setup.fund_manager_master, true),
    )
    .unwrap();
    assert_eq!(steps.len(), 1);
    setup.host.apply(&steps);

    let fund_account_info = setup.host.account(setup.fund_account, false);
    let fund_account_data = FundAccount::unpack(&fund_account_info.data).unwrap();

    assert_eq!(fund_account_data.share_value, new_share_value);
    assert_eq!(fund_account_data.share_value_update, 1_700_000_500);
    assert_eq!(fund_account_data.fund_name, setup.fund_name);
}

#[test]
fn test_buy_shares() {
    let mut setup = get_setup();

    initialize_fund_and_mint(&mut setup);

    buy_shares(&mut setup);

    let buyer_ata = find_associated_token_address(&setup.buyer, &setup.fund_mint).unwrap();

    assert_eq!(setup.host.balance(buyer_ata), Some(2 * SCALE_FACTOR));
}

#[test]
fn test_redeem_shares() {
    let mut setup = get_setup();

    initialize_fund_and_mint(&mut setup);

    buy_shares(&mut setup);

    redeem_shares(&mut setup);

    let buyer_ata = find_associated_token_address(&setup.buyer, &setup.fund_mint).unwrap();
    let fund_vault = find_associated_token_address(&setup.fund_account, &setup.fund_mint).unwrap();

    assert_eq!(setup.host.balance(buyer_ata), Some(1 * SCALE_FACTOR));
    assert_eq!(setup.host.balance(fund_vault), Some(1 * SCALE_FACTOR));

    let record_info = setup.host.account(redemption_address(&setup), false);
    assert_eq!(record_info.owner, setup.program_id);
    let record = ShareRedemption::unpack(&record_info.data).unwrap();
    assert!(record.is_initialized());
    assert_eq!(record.fund_account, setup.fund_account);
    assert_eq!(record.investor, setup.buyer);
    assert_eq!(record.shares_amount, 1 * SCALE_FACTOR);
    assert_eq!(record.share_value, 10_000 * SCALE_FACTOR);
    assert_eq!(record.created_timestamp, 1_700_000_000);
}

#[test]
fn test_process_share_redemption() {
    let mut setup = get_setup();

    initialize_fund_and_mint(&mut setup);

    buy_shares(&mut setup);

    redeem_shares(&mut setup);

    let custodian_before = setup.host.account(setup.punto_xero_master, false).lamports;
    let record_before = setup.host.account(redemption_address(&setup), false).lamports;

    process_share_redemption(&mut setup);

    let fund_vault = find_associated_token_address(&setup.fund_account, &setup.fund_mint).unwrap();
    let redemption_account = setup.host.account(redemption_address(&setup), false);

    assert_eq!(redemption_account.owner, system_program_id());
    assert_eq!(redemption_account.data, Vec::<u8>::new());
    assert_eq!(setup.host.balance(fund_vault), Some(0 * SCALE_FACTOR));

    let kept = Rent::default().minimum_balance(0);
    assert_eq!(redemption_account.lamports, kept);
    assert_eq!(
        setup.host.account(setup.punto_xero_master, false).lamports,
        custodian_before + record_before - kept
    );
    assert_eq!(
        ShareRedemption::unpack(&redemption_account.data),
        Err(FundError::BorshIoError)
    );
}

#[test]
fn a_second_initialize_fails_and_changes_nothing() {
    let mut setup = get_setup();
    initialize_fund_and_mint(&mut setup);
    let before = setup.host.account(setup.fund_account, false);

    assert_eq!(
        try_initialize(&setup, 12_345 * SCALE_FACTOR),
        Err(FundError::AccountAlreadyInitialized)
    );

    assert_eq!(setup.host.account(setup.fund_account, false), before);
    let record = FundAccount::unpack(&before.data).unwrap();
    assert_eq!(record.share_value, 10_000 * SCALE_FACTOR);
}

#[test]
fn update_needs_both_signatures() {
    let mut setup = get_setup();
    initialize_fund_and_mint(&mut setup);
    let custodian = setup.host.account(setup.punto_xero_master, true);
    let manager = setup.host.account(setup.fund_manager_master, true);

    let unsigned_custodian = setup.host.account(setup.punto_xero_master, false);
    assert_eq!(
        try_update(&setup, 11_000 * SCALE_FACTOR, unsigned_custodian, manager.clone()),
        Err(FundError::MissingRequiredSignature)
    );
    let unsigned_manager = setup.host.account(setup.fund_manager_master, false);
    assert_eq!(
        try_update(&setup, 11_000 * SCALE_FACTOR, custodian, unsigned_manager),
        Err(FundError::MissingRequiredSignature)
    );
}

#[test]
fn update_needs_the_authorities_on_record() {
    let mut setup = get_setup();
    initialize_fund_and_mint(&mut setup);
    let custodian = setup.host.account(setup.punto_xero_master, true);
    let manager = setup.host.account(setup.fund_manager_master, true);
    let stranger = setup.host.account(Address::new([9u8; 32]), true);

    assert_eq!(
        try_update(&setup, 11_000 * SCALE_FACTOR, stranger.clone(), manager.clone()),
        Err(FundError::MissingRequiredSignature)
    );
    assert_eq!(
        try_update(&setup, 11_000 * SCALE_FACTOR, custodian.clone(), stranger),
        Err(FundError::MissingRequiredSignature)
    );
    // The two authorities the wrong way round are not the authorities.
    assert_eq!(
        try_update(&setup, 11_000 * SCALE_FACTOR, manager, custodian),
        Err(FundError::MissingRequiredSignature)
    );
    let record =
        FundAccount::unpack(&setup.host.account(setup.fund_account, false).data).unwrap();
    assert_eq!(record.share_value, 10_000 * SCALE_FACTOR);
}

#[test]
fn update_takes_any_value() {
    let mut setup = get_setup();
    initialize_fund_and_mint(&mut setup);
    let custodian = setup.host.account(setup.punto_xero_master, true);
    let manager = setup.host.account(setup.fund_manager_master, true);

    let steps = try_update(&setup, 0, custodian, manager).unwrap();
    setup.host.apply(&steps);

    let record =
        FundAccount::unpack(&setup.host.account(setup.fund_account, false).data).unwrap();
    assert_eq!(record.share_value, 0);
    // A share value of zero cannot be bought at.
    assert_eq!(
        try_buy(&setup, 20_000 * SCALE_FACTOR),
        Err(FundError::Custom(CustomError::ArithmeticError))
    );
}

#[test]
fn update_of_a_record_of_another_owner_fails() {
    let mut setup = get_setup();
    initialize_fund_and_mint(&mut setup);
    setup.host.slot(setup.fund_account).owner = Address::new([8u8; 32]);
    let custodian = setup.host.account(setup.punto_xero_master, true);
    let manager = setup.host.account(setup.fund_manager_master, true);

    assert_eq!(
        try_update(&setup, 11_000 * SCALE_FACTOR, custodian, manager),
        Err(FundError::IllegalOwner)
    );
}

#[test]
fn buying_creates_the_token_account_once() {
    let mut setup = get_setup();
    initialize_fund_and_mint(&mut setup);

    let first = try_buy(&setup, 20_000 * SCALE_FACTOR).unwrap();
    assert_eq!(first.len(), 2);
    setup.host.apply(&first);

    let second = try_buy(&setup, 5_000 * SCALE_FACTOR).unwrap();
    assert_eq!(second.len(), 1);
    setup.host.apply(&second);

    let buyer_ata = find_associated_token_address(&setup.buyer, &setup.fund_mint).unwrap();
    assert_eq!(setup.host.balance(buyer_ata), Some(2_500_000));
}

#[test]
fn buying_that_overflows_is_an_arithmetic_error() {
    let mut setup = get_setup();
    initialize_fund_and_mint(&mut setup);

    assert_eq!(
        try_buy(&setup, u64::MAX / SCALE_FACTOR + 1),
        Err(FundError::Custom(CustomError::ArithmeticError))
    );
    assert!(try_buy(&setup, u64::MAX / SCALE_FACTOR).is_ok());
}

#[test]
fn a_second_redemption_before_settlement_fails() {
    let mut setup = get_setup();
    initialize_fund_and_mint(&mut setup);
    buy_shares(&mut setup);
    redeem_shares(&mut setup);
    let before = setup.host.account(redemption_address(&setup), false);

    assert_eq!(try_redeem(&setup, 500_000), Err(FundError::AccountAlreadyInitialized));

    assert_eq!(setup.host.account(redemption_address(&setup), false), before);
}

#[test]
fn a_redemption_can_follow_a_settled_one() {
    let mut setup = get_setup();
    initialize_fund_and_mint(&mut setup);
    buy_shares(&mut setup);
    redeem_shares(&mut setup);
    process_share_redemption(&mut setup);

    let steps = try_redeem(&setup, 250_000).unwrap();
    setup.host.apply(&steps);

    let record =
        ShareRedemption::unpack(&setup.host.account(redemption_address(&setup), false).data)
            .unwrap();
    assert_eq!(record.shares_amount, 250_000);
}

#[test]
fn settlement_for_another_amount_fails_and_leaves_the_escrow() {
    let mut setup = get_setup();
    initialize_fund_and_mint(&mut setup);
    buy_shares(&mut setup);
    redeem_shares(&mut setup);
    let before = setup.host.account(redemption_address(&setup), false);

    for amount in [0, 10_000 * SCALE_FACTOR - 1, 10_000 * SCALE_FACTOR + 1, u64::MAX] {
        assert_eq!(
            try_process(&setup, amount),
            Err(FundError::Custom(CustomError::InvalidRedemptionAmount))
        );
    }

    assert_eq!(setup.host.account(redemption_address(&setup), false), before);
    assert_eq!(setup.host.balance(setup.fund_vault), Some(1 * SCALE_FACTOR));
}

#[test]
fn settlement_goes_by_the_frozen_share_value() {
    let mut setup = get_setup();
    initialize_fund_and_mint(&mut setup);
    buy_shares(&mut setup);
    redeem_shares(&mut setup);
    let custodian = setup.host.account(setup.punto_xero_master, true);
    let manager = setup.host.account(setup.fund_manager_master, true);
    let steps = try_update(&setup, 11_000 * SCALE_FACTOR, custodian, manager).unwrap();
    setup.host.apply(&steps);

    assert_eq!(
        try_process(&setup, 11_000 * SCALE_FACTOR),
        Err(FundError::Custom(CustomError::InvalidRedemptionAmount))
    );
    let steps = try_process(&setup, 10_000 * SCALE_FACTOR).unwrap();
    setup.host.apply(&steps);
    assert_eq!(setup.host.balance(setup.fund_vault), Some(0));
}

#[test]
fn settling_twice_fails() {
    let mut setup = get_setup();
    initialize_fund_and_mint(&mut setup);
    buy_shares(&mut setup);
    redeem_shares(&mut setup);
    process_share_redemption(&mut setup);

    assert_eq!(try_process(&setup, 10_000 * SCALE_FACTOR), Err(FundError::BorshIoError));
}

#[test]
fn settlement_needs_no_manager_but_the_custodian() {
    let mut setup = get_setup();
    initialize_fund_and_mint(&mut setup);
    buy_shares(&mut setup);
    redeem_shares(&mut setup);

    // Eight accounts, none of them the manager: the custodian alone settles.
    assert!(try_process(&setup, 10_000 * SCALE_FACTOR).is_ok());

    let payload = ProcessSharesRedemptionPayload {
        amount_payed: 10_000 * SCALE_FACTOR,
        fund_name: setup.fund_name.clone(),
    };
    let data = request(4, payload.try_to_vec().unwrap());
    let host = &setup.host;
    let accounts = vec![
        host.account(setup.punto_xero_master, false),
        host.account(setup.fund_account, false),
        host.account(setup.fund_mint, false),
        host.account(redemption_address(&setup), false),
        host.account(setup.fund_vault, false),
        host.account(setup.buyer, false),
        host.account(token_program_id(), false),
        host.account(system_program_id(), false),
    ];
    assert_eq!(
        process_instruction(&setup.program_id, &accounts, &data, &host.sysvars(0)),
        Err(FundError::MissingRequiredSignature)
    );
}

#[test]
fn settlement_fails_where_the_record_cannot_pay_for_its_shell() {
    let mut setup = get_setup();
    initialize_fund_and_mint(&mut setup);
    buy_shares(&mut setup);
    redeem_shares(&mut setup);
    let record = redemption_address(&setup);
    setup.host.slot(record).lamports = Rent::default().minimum_balance(0) - 1;

    assert_eq!(
        try_process(&setup, 10_000 * SCALE_FACTOR),
        Err(FundError::Custom(CustomError::ArithmeticError))
    );
}

#[test]
fn settlement_fails_where_the_custodian_balance_would_overflow() {
    let mut setup = get_setup();
    initialize_fund_and_mint(&mut setup);
    buy_shares(&mut setup);
    redeem_shares(&mut setup);
    setup.host.slot(setup.punto_xero_master).lamports = u64::MAX;

    assert_eq!(
        try_process(&setup, 10_000 * SCALE_FACTOR),
        Err(FundError::Custom(CustomError::ArithmeticError))
    );
}

#[test]
fn an_account_in_place_of_another_is_rejected() {
    let mut setup = get_setup();
    initialize_fund_and_mint(&mut setup);
    buy_shares(&mut setup);

    // The mint in the place of the vault.
    let saved = setup.fund_vault;
    setup.fund_vault = setup.fund_mint;
    assert_eq!(try_redeem(&setup, 1 * SCALE_FACTOR), Err(FundError::InvalidAccountData));
    setup.fund_vault = saved;

    // Another fund's name with this fund's accounts: with the stored bump the
    // name rebuilds another address, or none at all.
    let name = setup.fund_name.clone();
    for other in ["Other", "PuntoXer0", "puntoxero", "", "Fund"] {
        setup.fund_name = String::from(other);
        assert!(matches!(
            try_buy(&setup, 20_000 * SCALE_FACTOR),
            Err(FundError::InvalidAccountData) | Err(FundError::InvalidSeeds)
        ));
    }
    setup.fund_name = name;

    // Another buyer's token account.
    let saved = setup.fund_mint;
    setup.fund_mint = Address::new([4u8; 32]);
    assert_eq!(try_buy(&setup, 20_000 * SCALE_FACTOR), Err(FundError::InvalidAccountData));
    setup.fund_mint = saved;
}

#[test]
fn a_wrong_number_of_accounts_is_rejected() {
    let setup = get_setup();
    let host = &setup.host;
    let payloads = [
        request(0, FundInitPayload { share_value: 1, fund_name: String::from("f") }.try_to_vec().unwrap()),
        request(1, UpdateShareValuePayload { new_share_value: 1, fund_name: String::from("f") }.try_to_vec().unwrap()),
        request(2, BuyFundSharesPayload { amount_in_fiat: 1, fund_name: String::from("f") }.try_to_vec().unwrap()),
        request(3, RedeemSharesPayload { shares_to_redeem: 1, fund_name: String::from("f") }.try_to_vec().unwrap()),
        request(4, ProcessSharesRedemptionPayload { amount_payed: 1, fund_name: String::from("f") }.try_to_vec().unwrap()),
    ];
    let expected = [9usize, 3, 8, 9, 8];
    for (data, needed) in payloads.iter().zip(expected) {
        for n in [0, needed - 1, needed + 1] {
            let accounts: Vec<Account> =
                (0..n).map(|i| host.account(Address::new([i as u8; 32]), true)).collect();
            assert_eq!(
                process_instruction(&setup.program_id, &accounts, data, &host.sysvars(0)),
                Err(FundError::NotEnoughAccountKeys)
            );
        }
    }
}

#[test]
fn a_request_that_cannot_be_decoded_is_rejected() {
    let setup = get_setup();
    let sysvars = setup.host.sysvars(0);
    let good = FundInitPayload { share_value: 1, fund_name: String::from("f") }.try_to_vec().unwrap();
    for data in [Vec::new(), vec![0u8], request(5, good.clone()), request(255, good.clone())] {
        assert_eq!(
            process_instruction(&setup.program_id, &[], &data, &sysvars),
            Err(FundError::InvalidInstructionData)
        );
    }
}

#[test]
fn a_name_too_long_for_a_seed_derives_nothing() {
    let mut setup = get_setup();
    setup.fund_name = "x".repeat(33);
    assert_eq!(find_fund_address(&setup.fund_name, &setup.program_id), None);
    assert_eq!(try_initialize(&setup, 10_000 * SCALE_FACTOR), Err(FundError::InvalidSeeds));
    setup.fund_name = "x".repeat(32);
    assert!(find_fund_address(&setup.fund_name, &setup.program_id).is_some());
}
