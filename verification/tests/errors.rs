use px_fund::errors::{CustomError, FundError};

#[test]
fn custom_errors_have_their_numbers() {
    assert_eq!(CustomError::ArithmeticError.code(), 0);
    assert_eq!(CustomError::InvalidRedemptionAmount.code(), 1);
    assert_eq!(CustomError::ArithmeticError.code(), CustomError::ArithmeticError as u32);
    assert_eq!(
        CustomError::InvalidRedemptionAmount.code(),
        CustomError::InvalidRedemptionAmount as u32
    );
}

#[test]
fn custom_errors_have_their_messages() {
    assert_eq!(CustomError::ArithmeticError.message(), "Arithmetic error!");
    assert_eq!(
        CustomError::InvalidRedemptionAmount.message(),
        "amount entered in redemption is not valid!"
    );
}

#[test]
fn only_custom_errors_have_a_custom_code() {
    assert_eq!(FundError::Custom(CustomError::ArithmeticError).custom_code(), Some(0));
    assert_eq!(FundError::Custom(CustomError::InvalidRedemptionAmount).custom_code(), Some(1));
    for e in [
        FundError::MissingRequiredSignature,
        FundError::IllegalOwner,
        FundError::InvalidAccountData,
        FundError::AccountAlreadyInitialized,
        FundError::InvalidInstructionData,
        FundError::NotEnoughAccountKeys,
        FundError::InvalidSeeds,
        FundError::MaxSeedLengthExceeded,
        FundError::BorshIoError,
    ] {
        assert_eq!(e.custom_code(), None);
    }
}
