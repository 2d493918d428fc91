//! Payment-and-mint handler for custom email aliases.
//!
//! Two independent operations: buying credits at a fixed tier price, paid from
//! the user's balance into a vault, and minting a one-of-one token for a
//! custom email alias. Both validate their inputs, act, and hand back the
//! event that records the operation.
pub mod error;
pub mod runtime;
pub mod credits;
pub mod email;

pub use error::ErrorCode;
pub use credits::{CreditsPurchased, LedgerAccount, PurchaseCredits, purchase_credits, credit_price};
pub use email::{CreateCustomEmail, CustomEmailCreated, MintRequest, create_custom_email, complete_custom_email};
