//! The records that the fund persists, and the operations on them.

pub mod fund_account;
pub mod share_redemption;
