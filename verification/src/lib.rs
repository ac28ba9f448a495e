//! The administration of a price-feed oracle contract: an account that is the
//! contract's admin, and the rule that only that account may hand the role on.
pub mod account;
pub mod admin;

pub use account::{AccountId, ParseAccountIdError};
pub use admin::{AdminError, FPOContract};
