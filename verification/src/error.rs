use vstd::prelude::*;

verus! {

/// The ways the group instructions refuse a request.
#[derive(Clone, Copy, Debug, PartialEq, Eq, Structural)]
pub enum MarginfiError {
    /// The marginfi account holds no active balance in the bank.
    LendingAccountBalanceNotFound,
    /// The balance carries no debt to settle.
    BalanceNotBadDebt,
}

} // verus!
