//! Verified core of the marginfi lending-pool group instructions: fee
//! collection out of a bank's liquidity vault and the split of a bankrupt
//! account's bad debt between the insurance fund and the bank's depositors.
//!
//! Amounts are `I80F48` fixed-point numbers of the `fixed` crate; the library
//! holds them as their raw bits (`WrappedI80F48`) and computes on them only
//! through that crate.
pub mod fixed_point;
pub mod pubkey;
pub mod error;
pub mod collect_fees;
pub mod bankruptcy;
