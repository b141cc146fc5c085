//! The requests that the program accepts, and their encoding: one byte that
//! names the operation, then the operation's payload.

pub mod buy_fund_shares;
pub mod create_fund;
pub mod process_shares_redemption;
pub mod redeem_shares;
pub mod update_share_value;

use crate::codec::{
    lemma_payload_canonical, lemma_payload_round_trip, payload_bytes, payload_parse,
    read_payload, string_fits, write_payload,
};
use crate::errors::FundError;
use vstd::prelude::*;
use vstd::slice::slice_subrange;

verus! {

/// A request, decoded.
#[derive(Debug, Clone, PartialEq, Eq)]
pub enum Instructions {
    /// Create the fund with this name, at this share value.
    InitFundAccount { share_value: u64, fund_name: String },
    /// Set the share value of the fund.
    UpdateShareValue { new_share_value: u64, fund_name: String },
    /// Sell shares of the fund for this amount of fiat.
    BuyFundShares { amount_in_fiat: u64, fund_name: String },
    /// Hand this many shares of the fund in for redemption.
    RedeemShares { shares_to_redeem: u64, fund_name: String },
    /// Settle a redemption for which this amount of fiat has been paid.
    ProcessSharesRedemption { amount_payed: u64, fund_name: String },
}

/// An [`Instructions`] as a mathematical value.
pub enum InstructionsView {
    InitFundAccount { share_value: u64, fund_name: Seq<char> },
    UpdateShareValue { new_share_value: u64, fund_name: Seq<char> },
    BuyFundShares { amount_in_fiat: u64, fund_name: Seq<char> },
    RedeemShares { shares_to_redeem: u64, fund_name: Seq<char> },
    ProcessSharesRedemption { amount_payed: u64, fund_name: Seq<char> },
}

impl View for Instructions {
    type V = InstructionsView;

    open spec fn view(&self) -> InstructionsView {
        match self {
            Instructions::InitFundAccount { share_value, fund_name } => {
                InstructionsView::InitFundAccount {
                    share_value: *share_value,
                    fund_name: fund_name@,
                }
            },
            Instructions::UpdateShareValue { new_share_value, fund_name } => {
                InstructionsView::UpdateShareValue {
                    new_share_value: *new_share_value,
                    fund_name: fund_name@,
                }
            },
            Instructions::BuyFundShares { amount_in_fiat, fund_name } => {
                InstructionsView::BuyFundShares {
                    amount_in_fiat: *amount_in_fiat,
                    fund_name: fund_name@,
                }
            },
            Instructions::RedeemShares { shares_to_redeem, fund_name } => {
                InstructionsView::RedeemShares {
                    shares_to_redeem: *shares_to_redeem,
                    fund_name: fund_name@,
                }
            },
            Instructions::ProcessSharesRedemption { amount_payed, fund_name } => {
                InstructionsView::ProcessSharesRedemption {
                    amount_payed: *amount_payed,
                    fund_name: fund_name@,
                }
            },
        }
    }
}

impl InstructionsView {
    /// The byte that names the operation.
    pub open spec fn tag(self) -> u8 {
        match self {
            InstructionsView::InitFundAccount { .. } => 0,
            InstructionsView::UpdateShareValue { .. } => 1,
            InstructionsView::BuyFundShares { .. } => 2,
            InstructionsView::RedeemShares { .. } => 3,
            InstructionsView::ProcessSharesRedemption { .. } => 4,
        }
    }

    /// The amount that the request carries.
    pub open spec fn value(self) -> u64 {
        match self {
            InstructionsView::InitFundAccount { share_value, .. } => share_value,
            InstructionsView::UpdateShareValue { new_share_value, .. } => new_share_value,
            InstructionsView::BuyFundShares { amount_in_fiat, .. } => amount_in_fiat,
            InstructionsView::RedeemShares { shares_to_redeem, .. } => shares_to_redeem,
            InstructionsView::ProcessSharesRedemption { amount_payed, .. } => amount_payed,
        }
    }

    /// The name of the fund that the request is about.
    pub open spec fn fund_name(self) -> Seq<char> {
        match self {
            InstructionsView::InitFundAccount { fund_name, .. } => fund_name,
            InstructionsView::UpdateShareValue { fund_name, .. } => fund_name,
            InstructionsView::BuyFundShares { fund_name, .. } => fund_name,
            InstructionsView::RedeemShares { fund_name, .. } => fund_name,
            InstructionsView::ProcessSharesRedemption { fund_name, .. } => fund_name,
        }
    }
}

/// The request that a tag, an amount and a name make, if the tag names an
/// operation.
pub open spec fn instruction_of(tag: u8, value: u64, fund_name: Seq<char>) -> Option<
    InstructionsView,
> {
    if tag == 0 {
        Some(InstructionsView::InitFundAccount { share_value: value, fund_name })
    } else if tag == 1 {
        Some(InstructionsView::UpdateShareValue { new_share_value: value, fund_name })
    } else if tag == 2 {
        Some(InstructionsView::BuyFundShares { amount_in_fiat: value, fund_name })
    } else if tag == 3 {
        Some(InstructionsView::RedeemShares { shares_to_redeem: value, fund_name })
    } else if tag == 4 {
        Some(InstructionsView::ProcessSharesRedemption { amount_payed: value, fund_name })
    } else {
        None
    }
}

/// The bytes of a request: its tag, then its payload.
pub open spec fn instruction_bytes(instruction: InstructionsView) -> Seq<u8> {
    seq![instruction.tag()] + payload_bytes(instruction.value(), instruction.fund_name())
}

/// The request that bytes hold, if they hold one: a first byte that names
/// an operation, and after it a payload and nothing more.
pub open spec fn instruction_parse(data: Seq<u8>) -> Option<InstructionsView> {
    if data.len() == 0 {
        None
    } else {
        match payload_parse(data.subrange(1, data.len() as int)) {
            None => None,
            Some((value, fund_name)) => instruction_of(data[0], value, fund_name),
        }
    }
}

/// What unpacking returns for what the bytes hold.
pub open spec fn instruction_unpacked(parsed: Option<InstructionsView>) -> Result<
    InstructionsView,
    FundError,
> {
    match parsed {
        Some(instruction) => Ok(instruction),
        None => Err(FundError::InvalidInstructionData),
    }
}

/// A request, or the error in its place, as a mathematical value.
pub open spec fn instruction_result_view(r: Result<Instructions, FundError>) -> Result<
    InstructionsView,
    FundError,
> {
    match r {
        Ok(instruction) => Ok(instruction@),
        Err(e) => Err(e),
    }
}

/// Bytes, or the error in their place, over their view.
pub open spec fn bytes_result_view(r: Result<Vec<u8>, FundError>) -> Result<Seq<u8>, FundError> {
    match r {
        Ok(bytes) => Ok(bytes@),
        Err(e) => Err(e),
    }
}

/// What writing a payload returns: its bytes, or `BorshIoError` where the
/// name is too long for its length to be written.
pub open spec fn payload_written(value: u64, fund_name: Seq<char>) -> Result<Seq<u8>, FundError> {
    if string_fits(fund_name) {
        Ok(payload_bytes(value, fund_name))
    } else {
        Err(FundError::BorshIoError)
    }
}

/// What reading a payload returns: the amount and the name, or
/// `BorshIoError` where the bytes are not a payload and nothing more.
pub open spec fn payload_read(data: Seq<u8>) -> Result<(u64, Seq<char>), FundError> {
    match payload_parse(data) {
        Some(payload) => Ok(payload),
        None => Err(FundError::BorshIoError),
    }
}

/// The bytes of a request read back as the request.
pub proof fn lemma_instruction_round_trip(instruction: InstructionsView)
    requires
        string_fits(instruction.fund_name()),
    ensures
        instruction_parse(instruction_bytes(instruction)) == Some(instruction),
{
    let data = instruction_bytes(instruction);
    let payload = payload_bytes(instruction.value(), instruction.fund_name());
    lemma_payload_round_trip(instruction.value(), instruction.fund_name());
    assert(data.subrange(1, data.len() as int) =~= payload);
    assert(data[0] == instruction.tag());
}

/// A request has one encoding only: bytes that read as a request are the
/// bytes of that request.
pub proof fn lemma_instruction_canonical(data: Seq<u8>)
    requires
        instruction_parse(data) is Some,
    ensures
        instruction_bytes(instruction_parse(data).unwrap()) == data,
{
    let tail = data.subrange(1, data.len() as int);
    lemma_payload_canonical(tail);
    let instruction = instruction_parse(data).unwrap();
    assert(instruction.tag() == data[0]);
    assert(instruction_bytes(instruction) =~= data);
}

/// The payload of the request that creates a fund.
#[derive(Debug, Clone, PartialEq, Eq)]
pub struct FundInitPayload {
    pub share_value: u64,
    pub fund_name: String,
}

/// The payload of the request that sets the share value.
#[derive(Debug, Clone, PartialEq, Eq)]
pub struct UpdateShareValuePayload {
    pub new_share_value: u64,
    pub fund_name: String,
}

/// The payload of the request that sells shares.
#[derive(Debug, Clone, PartialEq, Eq)]
pub struct BuyFundSharesPayload {
    pub amount_in_fiat: u64,
    pub fund_name: String,
}

/// The payload of the request that hands shares in.
#[derive(Debug, Clone, PartialEq, Eq)]
pub struct RedeemSharesPayload {
    pub shares_to_redeem: u64,
    pub fund_name: String,
}

/// The payload of the request that settles a redemption.
#[derive(Debug, Clone, PartialEq, Eq)]
pub struct ProcessSharesRedemptionPayload {
    pub amount_payed: u64,
    pub fund_name: String,
}

impl View for FundInitPayload {
    type V = (u64, Seq<char>);

    open spec fn view(&self) -> (u64, Seq<char>) {
        (self.share_value, self.fund_name@)
    }
}

impl View for UpdateShareValuePayload {
    type V = (u64, Seq<char>);

    open spec fn view(&self) -> (u64, Seq<char>) {
        (self.new_share_value, self.fund_name@)
    }
}

impl View for BuyFundSharesPayload {
    type V = (u64, Seq<char>);

    open spec fn view(&self) -> (u64, Seq<char>) {
        (self.amount_in_fiat, self.fund_name@)
    }
}

impl View for RedeemSharesPayload {
    type V = (u64, Seq<char>);

    open spec fn view(&self) -> (u64, Seq<char>) {
        (self.shares_to_redeem, self.fund_name@)
    }
}

impl View for ProcessSharesRedemptionPayload {
    type V = (u64, Seq<char>);

    open spec fn view(&self) -> (u64, Seq<char>) {
        (self.amount_payed, self.fund_name@)
    }
}

fn payload_to_vec(value: u64, fund_name: &str) -> (r: Result<Vec<u8>, FundError>)
    ensures
        bytes_result_view(r) == payload_written(value, fund_name@),
{
    match write_payload(value, fund_name) {
        Some(bytes) => Ok(bytes),
        None => Err(FundError::BorshIoError),
    }
}

impl FundInitPayload {
    /// The bytes of the payload.
    pub fn try_to_vec(&self) -> (r: Result<Vec<u8>, FundError>)
        ensures
            bytes_result_view(r) == payload_written(self@.0, self@.1),
    {
        payload_to_vec(self.share_value, self.fund_name.as_str())
    }

    /// The payload that the bytes hold, if they hold one and nothing more.
    pub fn try_from_slice(data: &[u8]) -> (r: Result<FundInitPayload, FundError>)
        ensures
            match r {
                Ok(payload) => payload_read(data@) == Ok::<(u64, Seq<char>), FundError>(payload@),
                Err(e) => payload_read(data@) == Err::<(u64, Seq<char>), FundError>(e),
            },
    {
        match read_payload(data) {
            Some((share_value, fund_name)) => Ok(FundInitPayload { share_value, fund_name }),
            None => Err(FundError::BorshIoError),
        }
    }
}

impl UpdateShareValuePayload {
    /// The bytes of the payload.
    pub fn try_to_vec(&self) -> (r: Result<Vec<u8>, FundError>)
        ensures
            bytes_result_view(r) == payload_written(self@.0, self@.1),
    {
        payload_to_vec(self.new_share_value, self.fund_name.as_str())
    }

    /// The payload that the bytes hold, if they hold one and nothing more.
    pub fn try_from_slice(data: &[u8]) -> (r: Result<UpdateShareValuePayload, FundError>)
        ensures
            match r {
                Ok(payload) => payload_read(data@) == Ok::<(u64, Seq<char>), FundError>(payload@),
                Err(e) => payload_read(data@) == Err::<(u64, Seq<char>), FundError>(e),
            },
    {
        match read_payload(data) {
            Some((new_share_value, fund_name)) => Ok(
                UpdateShareValuePayload { new_share_value, fund_name },
            ),
            None => Err(FundError::BorshIoError),
        }
    }
}

impl BuyFundSharesPayload {
    /// The bytes of the payload.
    pub fn try_to_vec(&self) -> (r: Result<Vec<u8>, FundError>)
        ensures
            bytes_result_view(r) == payload_written(self@.0, self@.1),
    {
        payload_to_vec(self.amount_in_fiat, self.fund_name.as_str())
    }

    /// The payload that the bytes hold, if they hold one and nothing more.
    pub fn try_from_slice(data: &[u8]) -> (r: Result<BuyFundSharesPayload, FundError>)
        ensures
            match r {
                Ok(payload) => payload_read(data@) == Ok::<(u64, Seq<char>), FundError>(payload@),
                Err(e) => payload_read(data@) == Err::<(u64, Seq<char>), FundError>(e),
            },
    {
        match read_payload(data) {
            Some((amount_in_fiat, fund_name)) => Ok(
                BuyFundSharesPayload { amount_in_fiat, fund_name },
            ),
            None => Err(FundError::BorshIoError),
        }
    }
}

impl RedeemSharesPayload {
    /// The bytes of the payload.
    pub fn try_to_vec(&self) -> (r: Result<Vec<u8>, FundError>)
        ensures
            bytes_result_view(r) == payload_written(self@.0, self@.1),
    {
        payload_to_vec(self.shares_to_redeem, self.fund_name.as_str())
    }

    /// The payload that the bytes hold, if they hold one and nothing more.
    pub fn try_from_slice(data: &[u8]) -> (r: Result<RedeemSharesPayload, FundError>)
        ensures
            match r {
                Ok(payload) => payload_read(data@) == Ok::<(u64, Seq<char>), FundError>(payload@),
                Err(e) => payload_read(data@) == Err::<(u64, Seq<char>), FundError>(e),
            },
    {
        match read_payload(data) {
            Some((shares_to_redeem, fund_name)) => Ok(
                RedeemSharesPayload { shares_to_redeem, fund_name },
            ),
            None => Err(FundError::BorshIoError),
        }
    }
}

impl ProcessSharesRedemptionPayload {
    /// The bytes of the payload.
    pub fn try_to_vec(&self) -> (r: Result<Vec<u8>, FundError>)
        ensures
            bytes_result_view(r) == payload_written(self@.0, self@.1),
    {
        payload_to_vec(self.amount_payed, self.fund_name.as_str())
    }

    /// The payload that the bytes hold, if they hold one and nothing more.
    pub fn try_from_slice(data: &[u8]) -> (r: Result<ProcessSharesRedemptionPayload, FundError>)
        ensures
            match r {
                Ok(payload) => payload_read(data@) == Ok::<(u64, Seq<char>), FundError>(payload@),
                Err(e) => payload_read(data@) == Err::<(u64, Seq<char>), FundError>(e),
            },
    {
        match read_payload(data) {
            Some((amount_payed, fund_name)) => Ok(
                ProcessSharesRedemptionPayload { amount_payed, fund_name },
            ),
            None => Err(FundError::BorshIoError),
        }
    }
}

impl Instructions {
    /// Decodes a request. Fails with `InvalidInstructionData` exactly when
    /// the bytes hold no request: they are empty, the first byte names no
    /// operation, or what follows it is not a payload and nothing more.
    pub fn unpack(instruction_data: &[u8]) -> (r: Result<Instructions, FundError>)
        ensures
            instruction_result_view(r) == instruction_unpacked(
                instruction_parse(instruction_data@),
            ),
    {
        let len = instruction_data.len();
        if len == 0 {
            return Err(FundError::InvalidInstructionData);
        }
        let discriminator = instruction_data[0];
        let data = slice_subrange(instruction_data, 1, len);
        if discriminator == 0 {
            match FundInitPayload::try_from_slice(data) {
                Ok(payload) => Ok(
                    Instructions::InitFundAccount {
                        share_value: payload.share_value,
                        fund_name: payload.fund_name,
                    },
                ),
                Err(_) => Err(FundError::InvalidInstructionData),
            }
        } else if discriminator == 1 {
            match UpdateShareValuePayload::try_from_slice(data) {
                Ok(payload) => Ok(
                    Instructions::UpdateShareValue {
                        new_share_value: payload.new_share_value,
                        fund_name: payload.fund_name,
                    },
                ),
                Err(_) => Err(FundError::InvalidInstructionData),
            }
        } else if discriminator == 2 {
            match BuyFundSharesPayload::try_from_slice(data) {
                Ok(payload) => Ok(
                    Instructions::BuyFundShares {
                        amount_in_fiat: payload.amount_in_fiat,
                        fund_name: payload.fund_name,
                    },
                ),
                Err(_) => Err(FundError::InvalidInstructionData),
            }
        } else if discriminator == 3 {
            match RedeemSharesPayload::try_from_slice(data) {
                Ok(payload) => Ok(
                    Instructions::RedeemShares {
                        shares_to_redeem: payload.shares_to_redeem,
                        fund_name: payload.fund_name,
                    },
                ),
                Err(_) => Err(FundError::InvalidInstructionData),
            }
        } else if discriminator == 4 {
            match ProcessSharesRedemptionPayload::try_from_slice(data) {
                Ok(payload) => Ok(
                    Instructions::ProcessSharesRedemption {
                        amount_payed: payload.amount_payed,
                        fund_name: payload.fund_name,
                    },
                ),
                Err(_) => Err(FundError::InvalidInstructionData),
            }
        } else {
            Err(FundError::InvalidInstructionData)
        }
    }

    /// Encodes a request. Fails with `BorshIoError` exactly when the name
    /// is too long for its length to be written in 32 bits.
    pub fn pack(&self) -> (r: Result<Vec<u8>, FundError>)
        ensures
            bytes_result_view(r) == if string_fits(self@.fund_name()) {
                Ok::<Seq<u8>, FundError>(instruction_bytes(self@))
            } else {
                Err::<Seq<u8>, FundError>(FundError::BorshIoError)
            },
    {
        let (tag, payload) = match self {
            Instructions::InitFundAccount { share_value, fund_name } => (
                0u8,
                payload_to_vec(*share_value, fund_name.as_str()),
            ),
            Instructions::UpdateShareValue { new_share_value, fund_name } => (
                1u8,
                payload_to_vec(*new_share_value, fund_name.as_str()),
            ),
            Instructions::BuyFundShares { amount_in_fiat, fund_name } => (
                2u8,
                payload_to_vec(*amount_in_fiat, fund_name.as_str()),
            ),
            Instructions::RedeemShares { shares_to_redeem, fund_name } => (
                3u8,
                payload_to_vec(*shares_to_redeem, fund_name.as_str()),
            ),
            Instructions::ProcessSharesRedemption { amount_payed, fund_name } => (
                4u8,
                payload_to_vec(*amount_payed, fund_name.as_str()),
            ),
        };
        let mut payload = payload?;
        let mut out: Vec<u8> = Vec::new();
        out.push(tag);
        out.append(&mut payload);
        assert(out@ =~= instruction_bytes(self@));
        Ok(out)
    }
}

} // verus!
