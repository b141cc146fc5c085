//! The errors that end an operation.

use vstd::prelude::*;

verus! {

/// The failures that belong to the fund itself.
#[derive(Debug, Clone, Copy, PartialEq, Eq, Structural)]
pub enum CustomError {
    /// A fixed-point conversion overflowed or divided by zero, or a balance
    /// could not be moved without leaving the 64-bit range.
    ArithmeticError,
    /// The amount attested at settlement is not the amount the escrowed
    /// shares are worth.
    InvalidRedemptionAmount,
}

impl CustomError {
    /// The number under which the host reports this error.
    pub open spec fn spec_code(self) -> u32 {
        match self {
            CustomError::ArithmeticError => 0,
            CustomError::InvalidRedemptionAmount => 1,
        }
    }

    /// The number under which the host reports this error.
    #[verifier::when_used_as_spec(spec_code)]
    pub fn code(self) -> (r: u32)
        ensures
            r == self.spec_code(),
    {
        match self {
            CustomError::ArithmeticError => 0,
            CustomError::InvalidRedemptionAmount => 1,
        }
    }

    /// The sentence that describes this error.
    pub fn message(self) -> (r: &'static str)
        ensures
            self == CustomError::ArithmeticError ==> r@ == "Arithmetic error!"@,
            self == CustomError::InvalidRedemptionAmount ==> r@
                == "amount entered in redemption is not valid!"@,
    {
        match self {
            CustomError::ArithmeticError => "Arithmetic error!",
            CustomError::InvalidRedemptionAmount => "amount entered in redemption is not valid!",
        }
    }
}

/// Every way in which an operation can end without effect.
///
/// Authorization failures are `MissingRequiredSignature` and `IllegalOwner`.
/// A supplied account that is not the one its seeds derive is
/// `InvalidAccountData`; seeds that derive no address at all are
/// `InvalidSeeds` or `MaxSeedLengthExceeded`. Creating a record twice is
/// `AccountAlreadyInitialized`. A request that cannot be decoded is
/// `InvalidInstructionData`, one with the wrong number of accounts is
/// `NotEnoughAccountKeys`.
#[derive(Debug, Clone, Copy, PartialEq, Eq, Structural)]
pub enum FundError {
    /// A required signer did not sign, or is not the authority on record.
    MissingRequiredSignature,
    /// The record is not owned by this program.
    IllegalOwner,
    /// A supplied account differs from the address derived for its role.
    InvalidAccountData,
    /// The record to create already exists.
    AccountAlreadyInitialized,
    /// The request names no known operation or its payload is malformed.
    InvalidInstructionData,
    /// The account list does not have the length the operation expects.
    NotEnoughAccountKeys,
    /// The seeds derive no address.
    InvalidSeeds,
    /// There are too many seeds, or one of them is too long.
    MaxSeedLengthExceeded,
    /// Account data does not hold a record in its persisted layout.
    BorshIoError,
    /// A failure of the fund's own rules.
    Custom(CustomError),
}

impl FundError {
    /// The number of a custom error, if this is one.
    pub fn custom_code(self) -> (r: Option<u32>)
        ensures
            r == match self {
                FundError::Custom(e) => Some(e.spec_code()),
                _ => None,
            },
    {
        match self {
            FundError::Custom(e) => Some(e.code()),
            _ => None,
        }
    }
}

} // verus!
