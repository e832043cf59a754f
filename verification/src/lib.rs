use vstd::prelude::*;

pub mod accounts;
pub mod commitment;
pub mod constants;
pub mod derivation;
pub mod error;
pub mod guarantees;
pub mod instructions;
pub mod native;
pub mod pubkey;
pub mod state;
pub mod token;

pub use accounts::{Account, Context, Rent, SystemAccount};
pub use constants::{ANCHOR_DISCRIMINATOR_SIZE, SEED_ESCROW_SOL, SEED_ESCROW_SPL};
pub use error::CustomError;
pub use pubkey::Pubkey;
pub use state::{EscrowAccount, EscrowSOLAccount};
