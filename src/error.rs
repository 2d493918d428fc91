use vstd::prelude::*;

verus! {

/// The ways in which an operation of this program is refused.
#[derive(Clone, Copy, Debug, PartialEq, Eq, Structural)]
pub enum ErrorCode {
    /// The payer's balance is below the price of the requested tier.
    InsufficientFunds,
    /// The requested number of credits is not one of the tiers 1, 2, 3, 5, 10.
    InvalidCreditsAmount,
    /// The email prefix is empty or longer than 50 characters.
    InvalidPrefix,
    /// The email domain is empty or longer than 100 characters.
    InvalidDomain,
}

} // verus!
