// The byte layouts of the records and of the requests, held against the
// serializer of the ledger's programs.

use borsh::BorshDeserialize;
use px_fund::address::Address;
use px_fund::codec::{read_payload, write_payload};
use px_fund::errors::FundError;
use px_fund::instructions::{
    BuyFundSharesPayload, FundInitPayload, Instructions, ProcessSharesRedemptionPayload,
    RedeemSharesPayload, UpdateShareValuePayload,
};
use px_fund::state::fund_account::{FundAccount, FUND_FIXED_LEN};
use px_fund::state::share_redemption::ShareRedemption;

type FundTuple = (bool, u8, [u8; 32], [u8; 32], [u8; 32], u8, [u8; 32], u64, i64, String);
type RedemptionTuple = (bool, u8, [u8; 32], [u8; 32], u64, u64, i64);

fn fund(name: &str) -> FundAccount {
    FundAccount {
        is_initialized: true,
        bump_seed: 254,
        punto_xero_master_pubkey: Address::new([1u8; 32]),
        manager_master_pubkey: Address::new([2u8; 32]),
        fund_mint: Address::new([3u8; 32]),
        mint_bump_seed: 253,
        fund_vault: Address::new([4u8; 32]),
        share_value: 10_000_000_000,
        share_value_update: -5,
        fund_name: String::from(name),
    }
}

fn fund_tuple(f: &FundAccount) -> FundTuple {
    (
        f.is_initialized,
        f.bump_seed,
        f.punto_xero_master_pubkey.to_bytes(),
        f.manager_master_pubkey.to_bytes(),
        f.fund_mint.to_bytes(),
        f.mint_bump_seed,
        f.fund_vault.to_bytes(),
        f.share_value,
        f.share_value_update,
        f.fund_name.clone(),
    )
}

fn redemption() -> ShareRedemption {
    ShareRedemption {
        is_initialized: true,
        bump_seed: 251,
        fund_account: Address::new([5u8; 32]),
        investor: Address::new([6u8; 32]),
        shares_amount: 1_000_000,
        share_value: 10_000_000_000,
        created_timestamp: i64::MIN,
    }
}

fn redemption_tuple(r: &ShareRedemption) -> RedemptionTuple {
    (
        r.is_initialized,
        r.bump_seed,
        r.fund_account.to_bytes(),
        r.investor.to_bytes(),
        r.shares_amount,
        r.share_value,
        r.created_timestamp,
    )
}

#[test]
fn a_fund_record_is_laid_out_field_by_field() {
    let bytes = fund("Px").pack().unwrap();
    let mut expected = vec![1u8, 254];
    expected.extend([1u8; 32]);
    expected.extend([2u8; 32]);
    expected.extend([3u8; 32]);
    expected.push(253);
    expected.extend([4u8; 32]);
    expected.extend([0x00, 0xe4, 0x0b, 0x54, 0x02, 0, 0, 0]);
    expected.extend([0xfb, 0xff, 0xff, 0xff, 0xff, 0xff, 0xff, 0xff]);
    expected.extend([2, 0, 0, 0]);
    expected.extend(b"Px");
    assert_eq!(bytes, expected);
}

#[test]
fn a_fund_record_is_written_as_the_serializer_writes_it() {
    for name in ["PuntoXero", "", "Fondo Ñandú €", "0123456789abcdef0123456789abcdef"] {
        let record = fund(name);
        let bytes = record.pack().unwrap();
        assert_eq!(bytes, borsh::to_vec(&fund_tuple(&record)).unwrap());
        assert_eq!(bytes.len(), FundAccount::get_space(name));
        assert_eq!(bytes.len(), FUND_FIXED_LEN + name.len());
    }
}

#[test]
fn a_fund_record_reads_back() {
    for name in ["PuntoXero", "", "Fondo Ñandú €"] {
        let mut record = fund(name);
        assert_eq!(FundAccount::unpack(&record.pack().unwrap()), Ok(record.clone()));
        record.is_initialized = false;
        record.share_value = u64::MAX;
        record.share_value_update = i64::MAX;
        assert_eq!(FundAccount::unpack(&record.pack().unwrap()), Ok(record.clone()));
        // What follows the record is not read.
        let mut longer = record.pack().unwrap();
        longer.extend([9u8; 40]);
        assert_eq!(FundAccount::unpack(&longer), Ok(record));
    }
}

#[test]
fn a_fund_record_is_read_as_the_serializer_reads_it() {
    let good = fund("PuntoXero").pack().unwrap();
    let mut cases: Vec<Vec<u8>> = vec![good.clone(), Vec::new(), vec![0u8; 151], vec![0u8; 150]];
    for cut in [1, 9, 10, 100] {
        cases.push(good[..good.len() - cut].to_vec());
    }
    let mut bad_flag = good.clone();
    bad_flag[0] = 2;
    cases.push(bad_flag);
    let mut bad_name = good.clone();
    bad_name[151] = 0xff;
    cases.push(bad_name);
    let mut long_name = good.clone();
    long_name[147] = 10;
    cases.push(long_name);
    for data in cases {
        let expected = FundTuple::deserialize(&mut &data[..]);
        match FundAccount::unpack(&data) {
            Ok(record) => assert_eq!(fund_tuple(&record), expected.unwrap()),
            Err(e) => {
                assert_eq!(e, FundError::BorshIoError);
                assert!(expected.is_err());
            }
        }
    }
}

#[test]
fn an_account_of_zeroes_holds_a_record_not_yet_created() {
    let record = FundAccount::unpack(&[0u8; 160]).unwrap();
    assert!(!record.is_initialized());
    assert_eq!(record.fund_name, "");
    let record = ShareRedemption::unpack(&[0u8; 90]).unwrap();
    assert!(!record.is_initialized());
}

#[test]
fn a_redemption_record_is_laid_out_field_by_field() {
    let bytes = redemption().pack();
    let mut expected = vec![1u8, 251];
    expected.extend([5u8; 32]);
    expected.extend([6u8; 32]);
    expected.extend([0x40, 0x42, 0x0f, 0, 0, 0, 0, 0]);
    expected.extend([0x00, 0xe4, 0x0b, 0x54, 0x02, 0, 0, 0]);
    expected.extend([0, 0, 0, 0, 0, 0, 0, 0x80]);
    assert_eq!(bytes, expected);
    assert_eq!(bytes.len(), ShareRedemption::LEN);
    assert_eq!(ShareRedemption::LEN, 90);
    assert_eq!(bytes, borsh::to_vec(&redemption_tuple(&redemption())).unwrap());
}

#[test]
fn a_redemption_record_reads_back() {
    let record = redemption();
    assert_eq!(ShareRedemption::unpack(&record.pack()), Ok(record));
    let mut longer = record.pack();
    longer.extend([1u8; 3]);
    assert_eq!(ShareRedemption::unpack(&longer), Ok(record));
}

#[test]
fn a_redemption_record_is_read_as_the_serializer_reads_it() {
    let good = redemption().pack();
    let mut bad_flag = good.clone();
    bad_flag[0] = 255;
    for data in [good.clone(), Vec::new(), good[..89].to_vec(), vec![0u8; 86], bad_flag] {
        let expected = RedemptionTuple::deserialize(&mut &data[..]);
        match ShareRedemption::unpack(&data) {
            Ok(record) => assert_eq!(redemption_tuple(&record), expected.unwrap()),
            Err(e) => {
                assert_eq!(e, FundError::BorshIoError);
                assert!(expected.is_err());
            }
        }
    }
}

#[test]
fn a_payload_is_an_amount_and_a_name() {
    let bytes = write_payload(10_000_000_000, "Px").unwrap();
    assert_eq!(bytes, vec![0x00, 0xe4, 0x0b, 0x54, 0x02, 0, 0, 0, 2, 0, 0, 0, b'P', b'x']);
    assert_eq!(read_payload(&bytes), Some((10_000_000_000, String::from("Px"))));
    for name in ["PuntoXero", "", "Fondo Ñandú €"] {
        for value in [0, 1, u64::MAX] {
            let bytes = write_payload(value, name).unwrap();
            assert_eq!(bytes, borsh::to_vec(&(value, String::from(name))).unwrap());
            assert_eq!(read_payload(&bytes), Some((value, String::from(name))));
        }
    }
}

#[test]
fn a_payload_is_read_as_the_serializer_reads_it() {
    let good = write_payload(7, "name").unwrap();
    let mut cases: Vec<Vec<u8>> = vec![good.clone(), Vec::new(), vec![0u8; 11], vec![0u8; 12]];
    cases.push(good[..good.len() - 1].to_vec());
    let mut trailing = good.clone();
    trailing.push(0);
    cases.push(trailing);
    let mut not_text = good.clone();
    not_text[12] = 0x80;
    cases.push(not_text);
    let mut huge = good.clone();
    huge[11] = 0xff;
    cases.push(huge);
    for data in cases {
        let expected = <(u64, String)>::try_from_slice(&data).ok();
        assert_eq!(read_payload(&data), expected);
    }
}

#[test]
fn each_payload_is_written_and_read_alike() {
    let name = String::from("PuntoXero");
    let bytes = borsh::to_vec(&(42u64, name.clone())).unwrap();
    let init = FundInitPayload { share_value: 42, fund_name: name.clone() };
    assert_eq!(init.try_to_vec(), Ok(bytes.clone()));
    assert_eq!(FundInitPayload::try_from_slice(&bytes), Ok(init));
    let update = UpdateShareValuePayload { new_share_value: 42, fund_name: name.clone() };
    assert_eq!(update.try_to_vec(), Ok(bytes.clone()));
    assert_eq!(UpdateShareValuePayload::try_from_slice(&bytes), Ok(update));
    let buy = BuyFundSharesPayload { amount_in_fiat: 42, fund_name: name.clone() };
    assert_eq!(buy.try_to_vec(), Ok(bytes.clone()));
    assert_eq!(BuyFundSharesPayload::try_from_slice(&bytes), Ok(buy));
    let redeem = RedeemSharesPayload { shares_to_redeem: 42, fund_name: name.clone() };
    assert_eq!(redeem.try_to_vec(), Ok(bytes.clone()));
    assert_eq!(RedeemSharesPayload::try_from_slice(&bytes), Ok(redeem));
    let process = ProcessSharesRedemptionPayload { amount_payed: 42, fund_name: name.clone() };
    assert_eq!(process.try_to_vec(), Ok(bytes.clone()));
    assert_eq!(ProcessSharesRedemptionPayload::try_from_slice(&bytes), Ok(process));

    let short = &bytes[..bytes.len() - 1];
    assert_eq!(FundInitPayload::try_from_slice(short), Err(FundError::BorshIoError));
    assert_eq!(UpdateShareValuePayload::try_from_slice(short), Err(FundError::BorshIoError));
    assert_eq!(BuyFundSharesPayload::try_from_slice(short), Err(FundError::BorshIoError));
    assert_eq!(RedeemSharesPayload::try_from_slice(short), Err(FundError::BorshIoError));
    assert_eq!(
        ProcessSharesRedemptionPayload::try_from_slice(short),
        Err(FundError::BorshIoError)
    );
}

fn all_requests(value: u64, name: &str) -> Vec<Instructions> {
    let fund_name = String::from(name);
    vec![
        Instructions::InitFundAccount { share_value: value, fund_name: fund_name.clone() },
        Instructions::UpdateShareValue { new_share_value: value, fund_name: fund_name.clone() },
        Instructions::BuyFundShares { amount_in_fiat: value, fund_name: fund_name.clone() },
        Instructions::RedeemShares { shares_to_redeem: value, fund_name: fund_name.clone() },
        Instructions::ProcessSharesRedemption { amount_payed: value, fund_name },
    ]
}

#[test]
fn a_request_is_a_tag_and_a_payload() {
    for (tag, request) in all_requests(20_000_000_000, "PuntoXero").into_iter().enumerate() {
        let payload = borsh::to_vec(&(20_000_000_000u64, String::from("PuntoXero"))).unwrap();
        let bytes = [&[tag as u8][..], &payload].concat();
        assert_eq!(request.pack(), Ok(bytes.clone()));
        assert_eq!(Instructions::unpack(&bytes), Ok(request));
    }
}

#[test]
fn a_request_reads_back() {
    for name in ["", "f", "Fondo Ñandú €"] {
        for value in [0, 1, u64::MAX] {
            for request in all_requests(value, name) {
                assert_eq!(Instructions::unpack(&request.pack().unwrap()), Ok(request));
            }
        }
    }
}

#[test]
fn bytes_that_are_no_request_are_invalid_instruction_data() {
    let payload = borsh::to_vec(&(1u64, String::from("f"))).unwrap();
    let invalid = Err(FundError::InvalidInstructionData);
    assert_eq!(Instructions::unpack(&[]), invalid);
    for tag in 0..=4u8 {
        assert_eq!(Instructions::unpack(&[tag]), invalid);
        let good = [&[tag][..], &payload].concat();
        assert!(Instructions::unpack(&good).is_ok());
        assert_eq!(Instructions::unpack(&good[..good.len() - 1]), invalid);
        let mut trailing = good.clone();
        trailing.push(0);
        assert_eq!(Instructions::unpack(&trailing), invalid);
        let mut not_text = good.clone();
        not_text[13] = 0xc0;
        assert_eq!(Instructions::unpack(&not_text), invalid);
    }
    for tag in 5..=255u8 {
        assert_eq!(Instructions::unpack(&[&[tag][..], &payload].concat()), invalid);
    }
}
