use vstd::prelude::*;

verus! {

/// Why an operation on an escrow was refused. Whatever the kind, the
/// operation that reports it has changed nothing.
#[derive(Clone, Copy, Debug, PartialEq, Eq, Structural)]
pub enum CustomError {
    /// The record was already settled by a redemption.
    AlreadyRedeemed,
    /// A refund was asked for at or before the deadline.
    NotExpired,
    /// The secret offered does not hash to the record's commitment.
    InvalidSecret,
    /// A record, or its vault, already stands at the address to be created.
    CreationConflict,
    /// The paying balance is smaller than what is to be taken from it.
    InsufficientFunds,
    /// The record, or a token account that the operation needs, does not
    /// exist: it was never created, or an earlier operation destroyed it.
    NotFound,
    /// The asset handed in is not the one the record or the token accounts
    /// name, or its decimal precision is not the one stated.
    AssetMismatch,
    /// An account handed in is not the one that the derivation gives or that
    /// the record names, or the authority offered does not control it.
    AddressMismatch,
    /// The receiving balance would pass the largest amount a balance can hold.
    BalanceOverflow,
    /// The token vault would still hold tokens when it is to be deleted.
    VaultNotEmpty,
}

/// How an operation that works in place ends: where `outcome` is a new
/// state, it reports success and has put that state in place; where it is a
/// refusal, it reports that refusal and has changed nothing.
pub open spec fn settled<T>(
    before: T,
    after: T,
    done: Result<(), CustomError>,
    outcome: Result<T, CustomError>,
) -> bool {
    match outcome {
        Ok(next) => done is Ok && after == next,
        Err(e) => done == Err::<(), CustomError>(e) && after == before,
    }
}

impl CustomError {
    /// The sentence shown to the caller.
    pub fn message(&self) -> (text: &'static str)
        ensures
            text@ == self.spec_message(),
    {
        match self {
            CustomError::AlreadyRedeemed => "The funds have already been redeemed.",
            CustomError::NotExpired => "The transfer has not expired yet.",
            CustomError::InvalidSecret => "The secret is invalid",
            CustomError::CreationConflict => "An escrow already exists for this commitment.",
            CustomError::InsufficientFunds => "The balance is too small for this transfer.",
            CustomError::NotFound => "The escrow does not exist.",
            CustomError::AssetMismatch => "The asset does not match the escrow.",
            CustomError::AddressMismatch => "An account does not match the escrow.",
            CustomError::BalanceOverflow => "The receiving balance would overflow.",
            CustomError::VaultNotEmpty => "The vault still holds tokens.",
        }
    }

    /// The sentence of each kind.
    pub open spec fn spec_message(&self) -> Seq<char> {
        match self {
            CustomError::AlreadyRedeemed => "The funds have already been redeemed."@,
            CustomError::NotExpired => "The transfer has not expired yet."@,
            CustomError::InvalidSecret => "The secret is invalid"@,
            CustomError::CreationConflict => "An escrow already exists for this commitment."@,
            CustomError::InsufficientFunds => "The balance is too small for this transfer."@,
            CustomError::NotFound => "The escrow does not exist."@,
            CustomError::AssetMismatch => "The asset does not match the escrow."@,
            CustomError::AddressMismatch => "An account does not match the escrow."@,
            CustomError::BalanceOverflow => "The receiving balance would overflow."@,
            CustomError::VaultNotEmpty => "The vault still holds tokens."@,
        }
    }

    /// The number under which the kind is reported: 6000 for the first, and
    /// one more for each that follows.
    pub fn code(&self) -> (code: u32)
        ensures
            code == self.spec_code(),
            6000 <= code < 6010,
    {
        match self {
            CustomError::AlreadyRedeemed => 6000,
            CustomError::NotExpired => 6001,
            CustomError::InvalidSecret => 6002,
            CustomError::CreationConflict => 6003,
            CustomError::InsufficientFunds => 6004,
            CustomError::NotFound => 6005,
            CustomError::AssetMismatch => 6006,
            CustomError::AddressMismatch => 6007,
            CustomError::BalanceOverflow => 6008,
            CustomError::VaultNotEmpty => 6009,
        }
    }

    /// The number of each kind.
    pub open spec fn spec_code(&self) -> u32 {
        match self {
            CustomError::AlreadyRedeemed => 6000,
            CustomError::NotExpired => 6001,
            CustomError::InvalidSecret => 6002,
            CustomError::CreationConflict => 6003,
            CustomError::InsufficientFunds => 6004,
            CustomError::NotFound => 6005,
            CustomError::AssetMismatch => 6006,
            CustomError::AddressMismatch => 6007,
            CustomError::BalanceOverflow => 6008,
            CustomError::VaultNotEmpty => 6009,
        }
    }

    /// No two kinds are reported under one number.
    pub proof fn lemma_code_injective(a: CustomError, b: CustomError)
        ensures
            a.spec_code() == b.spec_code() <==> a == b,
    {
    }
}

} // verus!
