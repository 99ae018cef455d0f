//! A kitty-trading pallet: accounts create, price, transfer, buy and breed
//! kitties, each kitty carrying a 16-byte DNA and a gender.
//!
//! The pallet's storage (`KittyCnt`, `Kitties`, `KittiesOwned`) lives in
//! [`Pallet`]; what the hosting runtime supplies (balances, locks,
//! randomness, the block number, the event sink) is reached through the
//! [`Config`] and [`SystemConfig`] traits.  Every state change is stated
//! against the mathematical model in [`model`].

pub mod config;
pub mod dna;
pub mod genesis;
pub mod laws;
pub mod model;
pub mod owned;
pub mod pallet;
pub mod types;

pub use config::{run_to_block, Config, SystemCall, SystemConfig};
pub use dna::{dna_from_seed, gender_from_random, mix_dna};

pub use genesis::GenesisConfig;
pub use owned::OwnedKitties;
pub use pallet::Pallet;

pub use types::{
    ensure_signed, AccountId, Balance, BlockNumber, DispatchError, Error, Event, Gender, Kitty,
    KittyIndex, LockIdentifier, Origin, WithdrawReasons, ALL_WITHDRAW_REASONS, KITTIES_ID,
    MAX_KITTY_OWNED, NEED_LOCK_BALANCE,
};
