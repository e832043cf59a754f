use vstd::prelude::*;
use vstd::string::StringSliceAdditionalSpecFns;
use crate::accounts::{Account, Context, SystemAccount};
use crate::commitment::{check_digest, check_secret, commit, digest_verdict, sha256_digest};
use crate::constants::{SEED_ESCROW_SOL, SEED_ESCROW_SPL};
use crate::derivation::{address_view, vault_authority};
use crate::error::{settled, CustomError};
use crate::instructions::redeem_funds::{sol_record_address, spl_record_address};
use crate::native::{release, released, teardown, torn_down};
use crate::pubkey::Pubkey;
use crate::state::escrow_account::EscrowAccount;
use crate::state::escrow_sol_account::EscrowSOLAccount;
use crate::token::{close_account, closed, transfer_checked, transferred, Mint, TokenAccount};

verus! {

/// The entries that the refund of a lock of tokens works on.
#[derive(Clone, Copy, Debug, PartialEq, Eq)]
pub struct RefundFundsSPL {
    /// Who submits the refund.
    pub signer: SystemAccount,
    /// The record.
    pub escrow_account: Account<EscrowAccount>,
    /// The vault: the record's token account.
    pub escrow_token_account: Account<TokenAccount>,
    /// The holder named by the record: receives what the vault and the
    /// record's entry held for their storage.
    pub sender: SystemAccount,
    /// The holder's token account, which receives the locked amount.
    pub sender_token_account: Account<TokenAccount>,
    /// The token that the record names.
    pub token_mint: Mint,
}

impl RefundFundsSPL {
    /// The record that the entries hold, where they are the entries of one
    /// lock: the record exists, it stands at the address that its commitment
    /// and nonce derive, the token and the holder handed in are the ones it
    /// names, and the token account that is to receive the refund exists and
    /// belongs to the holder.
    pub open spec fn record(self, derived: Option<Seq<u8>>) -> Result<EscrowAccount, CustomError> {
        match self.escrow_account.data {
            None => Err(CustomError::NotFound),
            Some(record) => if derived != Some(self.escrow_account.key@) {
                Err(CustomError::AddressMismatch)
            } else if self.token_mint.key@ != record.token_mint@ {
                Err(CustomError::AssetMismatch)
            } else if self.sender.key@ != record.sender@ {
                Err(CustomError::AddressMismatch)
            } else {
                match self.sender_token_account.data {
                    None => Err(CustomError::NotFound),
                    Some(destination) => if destination.owner@ != record.sender@ {
                        Err(CustomError::AddressMismatch)
                    } else {
                        Ok(record)
                    },
                }
            },
        }
    }

    /// Reads the record after checking that the entries belong together.
    pub fn check_accounts(&self, derived: Option<Pubkey>) -> (found: Result<
        EscrowAccount,
        CustomError,
    >)
        ensures
            found == self.record(address_view(derived)),
    {
        match self.escrow_account.data {
            None => Err(CustomError::NotFound),
            Some(record) => {
                match derived {
                    None => {
                        return Err(CustomError::AddressMismatch);
                    },
                    Some(address) => {
                        if address != self.escrow_account.key {
                            return Err(CustomError::AddressMismatch);
                        }
                    },
                }
                if self.token_mint.key != record.token_mint {
                    return Err(CustomError::AssetMismatch);
                }
                if self.sender.key != record.sender {
                    return Err(CustomError::AddressMismatch);
                }
                match self.sender_token_account.data {
                    None => Err(CustomError::NotFound),
                    Some(destination) => if destination.owner != record.sender {
                        Err(CustomError::AddressMismatch)
                    } else {
                        Ok(record)
                    },
                }
            },
        }
    }

    /// Whether a digest opens the record's commitment.
    pub open spec fn secret_verdict(self, digest: Seq<u8>) -> Result<(), CustomError> {
        match self.escrow_account.data {
            None => Err(CustomError::NotFound),
            Some(record) => digest_verdict(record.hash_of_secret@, digest),
        }
    }

    /// Hashes the secret offered and compares the digest with the record's
    /// commitment.
    pub fn verify_secret(&self, secret: &str) -> (done: Result<(), CustomError>)
        ensures
            done == self.secret_verdict(sha256_digest(secret.spec_bytes())),
    {
        match self.escrow_account.data {
            None => Err(CustomError::NotFound),
            Some(record) => check_secret(&record.hash_of_secret, secret),
        }
    }

    /// Compares the digest of the secret offered with the record's commitment.
    pub fn verify_digest(&self, provided_hash: &[u8; 32]) -> (done: Result<(), CustomError>)
        ensures
            done == self.secret_verdict(provided_hash@),
    {
        match self.escrow_account.data {
            None => Err(CustomError::NotFound),
            Some(record) => check_digest(&record.hash_of_secret, provided_hash),
        }
    }

    /// The entries after `amount` of the token has gone from the vault back
    /// to the holder's token account under `authority`.
    pub open spec fn tokens_paid_back(self, amount: u64, authority: Pubkey) -> Result<
        RefundFundsSPL,
        CustomError,
    > {
        match transferred(
            self.escrow_token_account,
            self.sender_token_account,
            self.token_mint,
            authority,
            amount,
            self.token_mint.decimals,
        ) {
            Err(e) => Err(e),
            Ok((escrow_token_account, sender_token_account)) => Ok(
                RefundFundsSPL { escrow_token_account, sender_token_account, ..self },
            ),
        }
    }

    /// Moves `amount` of the token from the vault back to the holder's token
    /// account. `authority` is the address derived from the record's seeds,
    /// which alone controls the vault.
    pub fn transfer_tokens_back_to_sender(&mut self, amount: u64, authority: &Pubkey) -> (done:
        Result<(), CustomError>)
        ensures
            settled(*old(self), *final(self), done, old(self).tokens_paid_back(amount, *authority)),
    {
        let token = self.token_mint;
        transfer_checked(
            &mut self.escrow_token_account,
            &mut self.sender_token_account,
            &token,
            authority,
            amount,
            token.decimals,
        )
    }

    /// The entries after the vault is deleted under `authority` and what it
    /// held for its storage is with the holder.
    pub open spec fn vault_closed(self, authority: Pubkey) -> Result<RefundFundsSPL, CustomError> {
        match closed(self.escrow_token_account, self.sender, authority) {
            Err(e) => Err(e),
            Ok((escrow_token_account, sender)) => Ok(
                RefundFundsSPL { escrow_token_account, sender, ..self },
            ),
        }
    }

    /// Deletes the emptied vault. `authority` is the address derived from
    /// the record's seeds.
    pub fn close_escrow_token_account(&mut self, authority: &Pubkey) -> (done: Result<
        (),
        CustomError,
    >)
        ensures
            settled(*old(self), *final(self), done, old(self).vault_closed(*authority)),
    {
        close_account(&mut self.escrow_token_account, &mut self.sender, authority)
    }

    /// The entries after the refund at the instant `unix_timestamp`: the
    /// holder's token account holds the locked amount on top of what it
    /// held, the vault and the record are destroyed, and what they held for
    /// their storage is with the holder. Refused where the entries do not
    /// belong together, where the digest is not the commitment, where the
    /// record is already redeemed, where the instant is not past the
    /// deadline, and where the transfer or one of the deletions is refused.
    pub open spec fn outcome(
        self,
        derived: Option<Seq<u8>>,
        digest: Seq<u8>,
        unix_timestamp: i64,
    ) -> Result<RefundFundsSPL, CustomError> {
        match self.record(derived) {
            Err(e) => Err(e),
            Ok(record) => if digest != record.hash_of_secret@ {
                Err(CustomError::InvalidSecret)
            } else if record.is_redeemed {
                Err(CustomError::AlreadyRedeemed)
            } else if unix_timestamp <= record.expiration_time {
                Err(CustomError::NotExpired)
            } else {
                match self.tokens_paid_back(record.amount, self.escrow_account.key) {
                    Err(e) => Err(e),
                    Ok(paid) => match paid.vault_closed(self.escrow_account.key) {
                        Err(e) => Err(e),
                        Ok(emptied) => match torn_down(emptied.escrow_account, emptied.sender) {
                            Err(e) => Err(e),
                            Ok((escrow_account, sender)) => Ok(
                                RefundFundsSPL { escrow_account, sender, ..emptied },
                            ),
                        },
                    },
                }
            },
        }
    }

    /// Refunds the lock at the instant `unix_timestamp`, or refuses and
    /// changes nothing.
    pub fn refund(
        &mut self,
        derived: Option<Pubkey>,
        provided_hash: &[u8; 32],
        unix_timestamp: i64,
    ) -> (done: Result<(), CustomError>)
        ensures
            settled(
                *old(self),
                *final(self),
                done,
                old(self).outcome(address_view(derived), provided_hash@, unix_timestamp),
            ),
    {
        let mut next = *self;
        let record = next.check_accounts(derived)?;
        next.verify_digest(provided_hash)?;
        if record.is_redeemed {
            return Err(CustomError::AlreadyRedeemed);
        }
        if unix_timestamp <= record.expiration_time {
            return Err(CustomError::NotExpired);
        }
        let authority = next.escrow_account.key;
        next.transfer_tokens_back_to_sender(record.amount, &authority)?;
        next.close_escrow_token_account(&authority)?;
        teardown(&mut next.escrow_account, &mut next.sender)?;
        *self = next;
        Ok(())
    }
}

/// What a refund of tokens with these secret bytes at this instant comes to.
pub open spec fn refund_funds_spl_outcome(
    ctx: Context<RefundFundsSPL>,
    secret: Seq<u8>,
    unix_timestamp: i64,
) -> Result<RefundFundsSPL, CustomError> {
    match ctx.accounts.escrow_account.data {
        None => Err(CustomError::NotFound),
        Some(record) => ctx.accounts.outcome(
            spl_record_address(ctx.program_id, record),
            sha256_digest(secret),
            unix_timestamp,
        ),
    }
}

/// Refunds a lock of tokens: strictly after the deadline, the locked amount
/// goes back to the holder's token account, and the vault and the record
/// are destroyed. `unix_timestamp` is the ledger's clock at the time of the
/// call.
pub fn refund_funds_spl(
    ctx: &mut Context<RefundFundsSPL>,
    secret: String,
    unix_timestamp: i64,
) -> (done: Result<(), CustomError>)
    ensures
        final(ctx).program_id == old(ctx).program_id,
        settled(
            old(ctx).accounts,
            final(ctx).accounts,
            done,
            refund_funds_spl_outcome(*old(ctx), vstd::utf8::encode_utf8(secret@), unix_timestamp),
        ),
{
    match ctx.accounts.escrow_account.data {
        None => Err(CustomError::NotFound),
        Some(record) => {
            let derived = vault_authority(
                &ctx.program_id,
                SEED_ESCROW_SPL.as_slice(),
                &record.hash_of_secret,
                record.bump,
            );
            let provided_hash = commit(secret.as_str().as_bytes());
            ctx.accounts.refund(derived, &provided_hash, unix_timestamp)
        },
    }
}

/// The entries that the refund of a lock of native balance works on.
#[derive(Clone, Copy, Debug, PartialEq, Eq)]
pub struct RefundFundsSOL {
    /// Who submits the refund.
    pub signer: SystemAccount,
    /// The record, which is also its vault.
    pub escrow_account: Account<EscrowSOLAccount>,
    /// The holder named by the record: receives the locked amount and what
    /// the record's entry held for its storage.
    pub sender: SystemAccount,
}

impl RefundFundsSOL {
    /// The record that the entries hold, where they are the entries of one
    /// lock: the record exists, it stands at the address that its commitment
    /// and nonce derive, and the holder handed in is the one it names.
    pub open spec fn record(self, derived: Option<Seq<u8>>) -> Result<
        EscrowSOLAccount,
        CustomError,
    > {
        match self.escrow_account.data {
            None => Err(CustomError::NotFound),
            Some(record) => if derived != Some(self.escrow_account.key@) {
                Err(CustomError::AddressMismatch)
            } else if self.sender.key@ != record.sender@ {
                Err(CustomError::AddressMismatch)
            } else {
                Ok(record)
            },
        }
    }

    /// Reads the record after checking that the entries belong together.
    pub fn check_accounts(&self, derived: Option<Pubkey>) -> (found: Result<
        EscrowSOLAccount,
        CustomError,
    >)
        ensures
            found == self.record(address_view(derived)),
    {
        match self.escrow_account.data {
            None => Err(CustomError::NotFound),
            Some(record) => {
                match derived {
                    None => {
                        return Err(CustomError::AddressMismatch);
                    },
                    Some(address) => {
                        if address != self.escrow_account.key {
                            return Err(CustomError::AddressMismatch);
                        }
                    },
                }
                if self.sender.key != record.sender {
                    return Err(CustomError::AddressMismatch);
                }
                Ok(record)
            },
        }
    }

    /// Whether a digest opens the record's commitment.
    pub open spec fn secret_verdict(self, digest: Seq<u8>) -> Result<(), CustomError> {
        match self.escrow_account.data {
            None => Err(CustomError::NotFound),
            Some(record) => digest_verdict(record.hash_of_secret@, digest),
        }
    }

    /// Hashes the secret offered and compares the digest with the record's
    /// commitment.
    pub fn verify_secret(&self, secret: &str) -> (done: Result<(), CustomError>)
        ensures
            done == self.secret_verdict(sha256_digest(secret.spec_bytes())),
    {
        match self.escrow_account.data {
            None => Err(CustomError::NotFound),
            Some(record) => check_secret(&record.hash_of_secret, secret),
        }
    }

    /// Compares the digest of the secret offered with the record's commitment.
    pub fn verify_digest(&self, provided_hash: &[u8; 32]) -> (done: Result<(), CustomError>)
        ensures
            done == self.secret_verdict(provided_hash@),
    {
        match self.escrow_account.data {
            None => Err(CustomError::NotFound),
            Some(record) => check_digest(&record.hash_of_secret, provided_hash),
        }
    }

    /// The entries after `amount` has gone from the vault back to the holder.
    pub open spec fn paid_back(self, amount: u64) -> Result<RefundFundsSOL, CustomError> {
        match released(self.escrow_account, self.sender, amount) {
            Err(e) => Err(e),
            Ok((escrow_account, sender)) => Ok(RefundFundsSOL { escrow_account, sender, ..self }),
        }
    }

    /// Moves `amount` of native balance from the vault back to the holder.
    pub fn transfer_sol_back_to_sender(&mut self, amount: u64) -> (done: Result<(), CustomError>)
        ensures
            settled(*old(self), *final(self), done, old(self).paid_back(amount)),
    {
        release(amount, &mut self.escrow_account, &mut self.sender)
    }

    /// The entries after the refund at the instant `unix_timestamp`: the
    /// holder holds again all that the record's entry held, the locked amount
    /// with it, and the record is destroyed. Refused where the entries do not
    /// belong together, where the digest is not the commitment, where the
    /// record is already redeemed, where the instant is not past the
    /// deadline, and where a balance cannot give or take what is moved.
    pub open spec fn outcome(
        self,
        derived: Option<Seq<u8>>,
        digest: Seq<u8>,
        unix_timestamp: i64,
    ) -> Result<RefundFundsSOL, CustomError> {
        match self.record(derived) {
            Err(e) => Err(e),
            Ok(record) => if digest != record.hash_of_secret@ {
                Err(CustomError::InvalidSecret)
            } else if record.is_redeemed {
                Err(CustomError::AlreadyRedeemed)
            } else if unix_timestamp <= record.expiration_time {
                Err(CustomError::NotExpired)
            } else {
                match self.paid_back(record.amount) {
                    Err(e) => Err(e),
                    Ok(paid) => match torn_down(paid.escrow_account, paid.sender) {
                        Err(e) => Err(e),
                        Ok((escrow_account, sender)) => Ok(
                            RefundFundsSOL { escrow_account, sender, ..paid },
                        ),
                    },
                }
            },
        }
    }

    /// Refunds the lock at the instant `unix_timestamp`, or refuses and
    /// changes nothing.
    pub fn refund(
        &mut self,
        derived: Option<Pubkey>,
        provided_hash: &[u8; 32],
        unix_timestamp: i64,
    ) -> (done: Result<(), CustomError>)
        ensures
            settled(
                *old(self),
                *final(self),
                done,
                old(self).outcome(address_view(derived), provided_hash@, unix_timestamp),
            ),
    {
        let mut next = *self;
        let record = next.check_accounts(derived)?;
        next.verify_digest(provided_hash)?;
        if record.is_redeemed {
            return Err(CustomError::AlreadyRedeemed);
        }
        if unix_timestamp <= record.expiration_time {
            return Err(CustomError::NotExpired);
        }
        next.transfer_sol_back_to_sender(record.amount)?;
        teardown(&mut next.escrow_account, &mut next.sender)?;
        *self = next;
        Ok(())
    }
}

/// What a refund with these secret bytes at this instant comes to.
pub open spec fn refund_funds_sol_outcome(
    ctx: Context<RefundFundsSOL>,
    secret: Seq<u8>,
    unix_timestamp: i64,
) -> Result<RefundFundsSOL, CustomError> {
    match ctx.accounts.escrow_account.data {
        None => Err(CustomError::NotFound),
        Some(record) => ctx.accounts.outcome(
            sol_record_address(ctx.program_id, record),
            sha256_digest(secret),
            unix_timestamp,
        ),
    }
}

/// Refunds a lock of native balance: strictly after the deadline, the
/// locked amount goes back to the holder, and the record is destroyed.
/// `unix_timestamp` is the ledger's clock at the time of the call.
pub fn refund_funds_sol(
    ctx: &mut Context<RefundFundsSOL>,
    secret: String,
    unix_timestamp: i64,
) -> (done: Result<(), CustomError>)
    ensures
        final(ctx).program_id == old(ctx).program_id,
        settled(
            old(ctx).accounts,
            final(ctx).accounts,
            done,
            refund_funds_sol_outcome(*old(ctx), vstd::utf8::encode_utf8(secret@), unix_timestamp),
        ),
{
    match ctx.accounts.escrow_account.data {
        None => Err(CustomError::NotFound),
        Some(record) => {
            let derived = vault_authority(
                &ctx.program_id,
                SEED_ESCROW_SOL.as_slice(),
                &record.hash_of_secret,
                record.bump,
            );
            let provided_hash = commit(secret.as_str().as_bytes());
            ctx.accounts.refund(derived, &provided_hash, unix_timestamp)
        },
    }
}

} // verus!
