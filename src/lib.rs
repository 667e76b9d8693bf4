//! Ownership, breeding and trading of creatures that carry a 16-byte genetic payload.
pub mod entropy;
pub mod genetics;
pub mod ledger;
pub mod lemmas;

pub use entropy::random_value;
pub use genetics::{get_female_male, mix_dna, Gender, Kitty};
pub use ledger::{
    AccountId, Balance, Currency, CurrencyError, Error, Event, KittyIndex, Ledger, LedgerView,
};
