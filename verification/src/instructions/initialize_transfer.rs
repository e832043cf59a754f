use vstd::prelude::*;
use crate::accounts::{Account, Context, Rent, SystemAccount};
use crate::constants::{SEED_ESCROW_SOL, SEED_ESCROW_SPL};
use crate::derivation::{
    address_view, derive_vault_authority, derived_view, program_address_found, record_seeds,
};
use crate::error::{settled, CustomError};
use crate::native::{lock, locked, open_account, opened, Transfer};
use crate::pubkey::Pubkey;
use crate::state::escrow_account::EscrowAccount;
use crate::state::escrow_sol_account::EscrowSOLAccount;
use crate::token::{
    associated_token_address, create_associated_token_account, created,
    get_associated_token_address, transfer_checked, transferred, Mint, TokenAccount,
    TransferChecked,
};

verus! {

/// The entries that the creation of a lock of tokens works on.
#[derive(Clone, Copy, Debug, PartialEq, Eq)]
pub struct InitializeTransferSPL {
    /// The holder: pays for the storage of the record and of the vault.
    pub sender: SystemAccount,
    /// The place of the record. It holds no data yet.
    pub escrow_account: Account<EscrowAccount>,
    /// The place of the vault: the record's token account. It holds no data
    /// yet.
    pub escrow_token_account: Account<TokenAccount>,
    /// The holder's token account, from which the lock is funded.
    pub sender_token_account: Account<TokenAccount>,
    /// The token to lock.
    pub token_mint: Mint,
    /// The program that keeps the token's accounts.
    pub token_program: Pubkey,
    /// The program under which the addresses of token accounts are derived.
    pub associated_token_program: Pubkey,
    /// What the ledger asks a stored entry to hold.
    pub rent: Rent,
}

impl InitializeTransferSPL {
    /// The entries of the transfer that funds the vault, under the holder's
    /// authority.
    pub fn into_transfer_to_escrow_context(&self) -> (transfer: TransferChecked)
        ensures
            transfer == (TransferChecked {
                from: self.sender_token_account.key,
                to: self.escrow_token_account.key,
                authority: self.sender.key,
                mint: self.token_mint.key,
            }),
    {
        TransferChecked {
            from: self.sender_token_account.key,
            to: self.escrow_token_account.key,
            authority: self.sender.key,
            mint: self.token_mint.key,
        }
    }

    /// The entries after the holder has paid into the record's entry what a
    /// token account has to hold for its storage.
    pub open spec fn rent_claimed(self) -> Result<InitializeTransferSPL, CustomError> {
        match locked(self.sender, self.escrow_account, self.rent.token_account) {
            Err(e) => Err(e),
            Ok((sender, escrow_account)) => Ok(
                InitializeTransferSPL { sender, escrow_account, ..self },
            ),
        }
    }

    /// Takes from the holder, into the record's entry, what the creation of
    /// the claimant's token account will cost.
    pub fn claim_rent_from_sender(&mut self) -> (done: Result<(), CustomError>)
        ensures
            settled(*old(self), *final(self), done, old(self).rent_claimed()),
    {
        lock(self.rent.token_account, &mut self.sender, &mut self.escrow_account)
    }

    /// Whether the holder's token account is the one to fund the lock from:
    /// it exists, the holder controls it, and it stands at the address
    /// derived for the holder and the token.
    pub open spec fn source_verdict(self, sender_address: Option<Seq<u8>>) -> Result<
        (),
        CustomError,
    > {
        match self.sender_token_account.data {
            None => Err(CustomError::NotFound),
            Some(source) => if source.owner@ != self.sender.key@ {
                Err(CustomError::AddressMismatch)
            } else if sender_address != Some(self.sender_token_account.key@) {
                Err(CustomError::AddressMismatch)
            } else {
                Ok(())
            },
        }
    }

    /// Checks the holder's token account.
    pub fn check_source(&self, sender_address: Option<Pubkey>) -> (done: Result<(), CustomError>)
        ensures
            done == self.source_verdict(address_view(sender_address)),
    {
        match self.sender_token_account.data {
            None => Err(CustomError::NotFound),
            Some(source) => {
                if source.owner != self.sender.key {
                    return Err(CustomError::AddressMismatch);
                }
                match sender_address {
                    None => Err(CustomError::AddressMismatch),
                    Some(address) => if address != self.sender_token_account.key {
                        Err(CustomError::AddressMismatch)
                    } else {
                        Ok(())
                    },
                }
            },
        }
    }

    /// The entries after the lock is created, given the address and nonce
    /// that the commitment derives, and the addresses derived for the token
    /// accounts of the record and of the holder. The record is created
    /// first, then the vault under the record's address, both paid for by
    /// the holder; then the holder's token account is checked, and `amount`
    /// goes from it into the vault under the holder's authority. Any refusal
    /// on the way is the outcome.
    pub open spec fn outcome(
        self,
        derived: Option<(Seq<u8>, u8)>,
        vault_address: Option<Seq<u8>>,
        sender_address: Option<Seq<u8>>,
        amount: u64,
        expiration_time: i64,
        hash_of_secret: [u8; 32],
    ) -> Result<InitializeTransferSPL, CustomError> {
        match derived {
            None => Err(CustomError::AddressMismatch),
            Some((address, bump)) => if self.escrow_account.key@ != address {
                Err(CustomError::AddressMismatch)
            } else {
                match opened(
                    self.sender,
                    self.escrow_account,
                    self.rent.escrow_account,
                    EscrowAccount::fresh(
                        self.sender.key,
                        amount,
                        expiration_time,
                        self.token_mint.key,
                        hash_of_secret,
                        bump,
                    ),
                ) {
                    Err(e) => Err(e),
                    Ok((payer, escrow_account)) => match created(
                        payer,
                        self.escrow_token_account,
                        vault_address,
                        self.escrow_account.key,
                        self.token_mint.key,
                        self.rent.token_account,
                    ) {
                        Err(e) => Err(e),
                        Ok((sender, vault)) => match self.source_verdict(sender_address) {
                            Err(e) => Err(e),
                            Ok(()) => match transferred(
                                self.sender_token_account,
                                vault,
                                self.token_mint,
                                self.sender.key,
                                amount,
                                self.token_mint.decimals,
                            ) {
                                Err(e) => Err(e),
                                Ok((sender_token_account, escrow_token_account)) => Ok(
                                    InitializeTransferSPL {
                                        sender,
                                        escrow_account,
                                        escrow_token_account,
                                        sender_token_account,
                                        ..self
                                    },
                                ),
                            },
                        },
                    },
                }
            },
        }
    }

    /// Creates the record and its vault and funds the vault, or refuses and
    /// changes nothing.
    pub fn initialize(
        &mut self,
        derived: Option<(Pubkey, u8)>,
        vault_address: Option<Pubkey>,
        sender_address: Option<Pubkey>,
        amount: u64,
        expiration_time: i64,
        hash_of_secret: [u8; 32],
    ) -> (done: Result<(), CustomError>)
        ensures
            settled(
                *old(self),
                *final(self),
                done,
                old(self).outcome(
                    derived_view(derived),
                    address_view(vault_address),
                    address_view(sender_address),
                    amount,
                    expiration_time,
                    hash_of_secret,
                ),
            ),
    {
        let mut next = *self;
        match derived {
            None => Err(CustomError::AddressMismatch),
            Some((address, bump)) => {
                if next.escrow_account.key != address {
                    return Err(CustomError::AddressMismatch);
                }
                let record = EscrowAccount {
                    sender: next.sender.key,
                    amount,
                    expiration_time,
                    is_redeemed: false,
                    token_mint: next.token_mint.key,
                    hash_of_secret,
                    bump,
                };
                open_account(
                    &mut next.sender,
                    &mut next.escrow_account,
                    next.rent.escrow_account,
                    record,
                )?;
                let authority = next.escrow_account.key;
                let mint = next.token_mint.key;
                create_associated_token_account(
                    &mut next.sender,
                    &mut next.escrow_token_account,
                    vault_address,
                    &authority,
                    &mint,
                    next.rent.token_account,
                )?;
                next.check_source(sender_address)?;
                let holder = next.sender.key;
                let token = next.token_mint;
                transfer_checked(
                    &mut next.sender_token_account,
                    &mut next.escrow_token_account,
                    &token,
                    &holder,
                    amount,
                    token.decimals,
                )?;
                *self = next;
                Ok(())
            },
        }
    }
}

/// What the creation of a lock of tokens comes to, with every address
/// derived from the entries handed in.
pub open spec fn initialize_transfer_spl_outcome(
    ctx: Context<InitializeTransferSPL>,
    amount: u64,
    expiration_time: i64,
    hash_of_secret: [u8; 32],
) -> Result<InitializeTransferSPL, CustomError> {
    ctx.accounts.outcome(
        program_address_found(record_seeds(SEED_ESCROW_SPL@, hash_of_secret@), ctx.program_id@),
        associated_token_address(
            ctx.accounts.escrow_account.key@,
            ctx.accounts.token_mint.key@,
            ctx.accounts.token_program@,
            ctx.accounts.associated_token_program@,
        ),
        associated_token_address(
            ctx.accounts.sender.key@,
            ctx.accounts.token_mint.key@,
            ctx.accounts.token_program@,
            ctx.accounts.associated_token_program@,
        ),
        amount,
        expiration_time,
        hash_of_secret,
    )
}

/// Locks `amount` of the holder's tokens under a commitment until the secret
/// is shown or the deadline has passed. The record's address is derived from
/// the commitment under the program's identity; the vault is the record's
/// own token account.
pub fn initialize_transfer_spl(
    ctx: &mut Context<InitializeTransferSPL>,
    amount: u64,
    expiration_time: i64,
    hash_of_secret: [u8; 32],
) -> (done: Result<(), CustomError>)
    ensures
        final(ctx).program_id == old(ctx).program_id,
        settled(
            old(ctx).accounts,
            final(ctx).accounts,
            done,
            initialize_transfer_spl_outcome(*old(ctx), amount, expiration_time, hash_of_secret),
        ),
{
    let derived = derive_vault_authority(
        &ctx.program_id,
        SEED_ESCROW_SPL.as_slice(),
        &hash_of_secret,
    );
    let vault_address = get_associated_token_address(
        &ctx.accounts.escrow_account.key,
        &ctx.accounts.token_mint.key,
        &ctx.accounts.token_program,
        &ctx.accounts.associated_token_program,
    );
    let sender_address = get_associated_token_address(
        &ctx.accounts.sender.key,
        &ctx.accounts.token_mint.key,
        &ctx.accounts.token_program,
        &ctx.accounts.associated_token_program,
    );
    ctx.accounts.initialize(
        derived,
        vault_address,
        sender_address,
        amount,
        expiration_time,
        hash_of_secret,
    )
}

/// The entries that the creation of a lock of native balance works on.
#[derive(Clone, Copy, Debug, PartialEq, Eq)]
pub struct InitializeTransferSOL {
    /// The holder: pays for the record's storage and funds the lock.
    pub sender: SystemAccount,
    /// The place of the record, which is also its vault. It holds no data yet.
    pub escrow_account: Account<EscrowSOLAccount>,
    /// What the ledger asks a stored entry to hold.
    pub rent: Rent,
}

impl InitializeTransferSOL {
    /// The two ends of the transfer that funds the vault.
    pub fn into_transfer_sol_context(&self) -> (transfer: Transfer)
        ensures
            transfer == (Transfer { from: self.sender.key, to: self.escrow_account.key }),
    {
        Transfer { from: self.sender.key, to: self.escrow_account.key }
    }

    /// The entries after the lock is created, given the address and nonce
    /// that the commitment derives. Refused where the commitment derives no
    /// address or another one than the place handed in, where a record
    /// stands there already, and where the holder cannot pay for the storage
    /// and then for the amount.
    pub open spec fn outcome(
        self,
        derived: Option<(Seq<u8>, u8)>,
        amount: u64,
        expiration_time: i64,
        hash_of_secret: [u8; 32],
    ) -> Result<InitializeTransferSOL, CustomError> {
        match derived {
            None => Err(CustomError::AddressMismatch),
            Some((address, bump)) => if self.escrow_account.key@ != address {
                Err(CustomError::AddressMismatch)
            } else {
                match opened(
                    self.sender,
                    self.escrow_account,
                    self.rent.escrow_account,
                    EscrowSOLAccount::fresh(
                        self.sender.key,
                        amount,
                        expiration_time,
                        hash_of_secret,
                        bump,
                    ),
                ) {
                    Err(e) => Err(e),
                    Ok((payer, slot)) => match locked(payer, slot, amount) {
                        Err(e) => Err(e),
                        Ok((sender, escrow_account)) => Ok(
                            InitializeTransferSOL { sender, escrow_account, rent: self.rent },
                        ),
                    },
                }
            },
        }
    }

    /// Creates the record and funds its vault, or refuses and changes nothing.
    pub fn initialize(
        &mut self,
        derived: Option<(Pubkey, u8)>,
        amount: u64,
        expiration_time: i64,
        hash_of_secret: [u8; 32],
    ) -> (done: Result<(), CustomError>)
        ensures
            settled(
                *old(self),
                *final(self),
                done,
                old(self).outcome(derived_view(derived), amount, expiration_time, hash_of_secret),
            ),
    {
        let mut next = *self;
        match derived {
            None => Err(CustomError::AddressMismatch),
            Some((address, bump)) => {
                if next.escrow_account.key != address {
                    return Err(CustomError::AddressMismatch);
                }
                let record = EscrowSOLAccount {
                    sender: next.sender.key,
                    amount,
                    expiration_time,
                    is_redeemed: false,
                    hash_of_secret,
                    bump,
                };
                open_account(
                    &mut next.sender,
                    &mut next.escrow_account,
                    next.rent.escrow_account,
                    record,
                )?;
                lock(amount, &mut next.sender, &mut next.escrow_account)?;
                *self = next;
                Ok(())
            },
        }
    }
}

/// What the creation of a lock of native balance comes to, with the
/// record's address derived from the commitment.
pub open spec fn initialize_transfer_sol_outcome(
    ctx: Context<InitializeTransferSOL>,
    amount: u64,
    expiration_time: i64,
    hash_of_secret: [u8; 32],
) -> Result<InitializeTransferSOL, CustomError> {
    ctx.accounts.outcome(
        program_address_found(record_seeds(SEED_ESCROW_SOL@, hash_of_secret@), ctx.program_id@),
        amount,
        expiration_time,
        hash_of_secret,
    )
}

/// Locks `amount` of the holder's native balance under a commitment until
/// the secret is shown or the deadline has passed. The record's address is
/// derived from the commitment under the program's identity.
pub fn initialize_transfer_sol(
    ctx: &mut Context<InitializeTransferSOL>,
    amount: u64,
    expiration_time: i64,
    hash_of_secret: [u8; 32],
) -> (done: Result<(), CustomError>)
    ensures
        final(ctx).program_id == old(ctx).program_id,
        settled(
            old(ctx).accounts,
            final(ctx).accounts,
            done,
            initialize_transfer_sol_outcome(*old(ctx), amount, expiration_time, hash_of_secret),
        ),
{
    let derived = derive_vault_authority(
        &ctx.program_id,
        SEED_ESCROW_SOL.as_slice(),
        &hash_of_secret,
    );
    ctx.accounts.initialize(derived, amount, expiration_time, hash_of_secret)
}

} // verus!
