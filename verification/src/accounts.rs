use vstd::prelude::*;
use crate::pubkey::Pubkey;

verus! {

/// A ledger entry that holds native balance and nothing else: a wallet.
#[derive(Clone, Copy, Debug, PartialEq, Eq)]
pub struct SystemAccount {
    pub key: Pubkey,
    pub lamports: u64,
}

/// A ledger entry that may hold data of type `T`. Without data the entry does
/// not exist as a `T`: it was never created, or it was destroyed.
#[derive(Clone, Copy, Debug, PartialEq, Eq)]
pub struct Account<T> {
    pub key: Pubkey,
    pub lamports: u64,
    pub data: Option<T>,
}

/// The native balance that the ledger asks an entry to hold for as long as it
/// stores data, for each of the two sizes of entry that an escrow creates.
#[derive(Clone, Copy, Debug, PartialEq, Eq)]
pub struct Rent {
    /// What a record has to hold.
    pub escrow_account: u64,
    /// What a token account has to hold.
    pub token_account: u64,
}

/// The entries that one operation works on, with the identity of the program
/// under which addresses are derived. Each entry stands for one place on the
/// ledger: the caller hands in no place twice.
#[derive(Clone, Copy, Debug, PartialEq, Eq)]
pub struct Context<T> {
    pub program_id: Pubkey,
    pub accounts: T,
}

impl<T> Account<T> {
    /// Whether the entry holds data.
    pub fn is_initialized(&self) -> (yes: bool)
        ensures
            yes == self.data is Some,
    {
        self.data.is_some()
    }
}

} // verus!
