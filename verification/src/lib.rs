//! A token presale ledger: investors contribute native currency inside a time
//! window, each contribution buys whole tokens at a fixed price, and after the
//! window the tokens are claimed and the authority withdraws what was raised.
//!
//! The operations in [`presale`] work on the accounts of one call, held as
//! plain values (see [`accounts`]). They decide, change the records and hand
//! back the transfer that has to follow; reading the accounts, the clock and
//! the signature, and carrying out the transfer, is left to the caller.
//! [`book`] and [`laws`] hold what is proved of any sequence of calls.

pub mod accounts;
pub mod address;
pub mod book;
pub mod error;
pub mod instruction;
pub mod laws;
pub mod presale;
pub mod state;

pub use accounts::{
    ClaimTokens, Invest, Mint, SetTokenAddress, StartPresale, StopPresale, WithdrawSol,
};
pub use address::Address;
pub use error::CustomError;
pub use instruction::{AccountMeta, Instruction, TokenTransfer};
pub use presale::{
    claim_tokens, invest_sol, invest_within_limits, set_token_address, start_presale, stop_presale,
    withdraw_sol, withdraw_within_limits,
};
pub use state::{InvestmentData, PresaleInfo};
