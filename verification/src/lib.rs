//! A custodial investment fund on a shared ledger.
//!
//! The fund issues redeemable shares, priced against a share value that its
//! manager sets. This library holds the decisions of the program: it derives
//! and checks every address the fund needs, enforces who must sign, converts
//! between fiat amounts and share quantities, and plans the two phases of a
//! redemption. It never touches the ledger itself. Each operation takes the
//! accounts as plain values and returns the ordered list of [`Step`]s that the
//! host has to carry out, or the error that ends the operation with no step
//! taken.

pub mod account;
pub mod address;
pub mod codec;
pub mod errors;
pub mod instructions;
pub mod invoke;
pub mod processor;
pub mod state;
pub mod utils;

pub use account::{Account, AccountMeta, Instruction, Step, Sysvars};
pub use address::Address;
pub use errors::{CustomError, FundError};
pub use instructions::Instructions;
pub use processor::process_instruction;
pub use state::fund_account::FundAccount;
pub use state::share_redemption::ShareRedemption;
