use vstd::prelude::*;
use vstd::string::StringSliceAdditionalSpecFns;
use crate::accounts::{Account, Context, Rent, SystemAccount};
use crate::commitment::{check_digest, check_secret, commit, digest_verdict, sha256_digest};
use crate::constants::{SEED_ESCROW_SOL, SEED_ESCROW_SPL};
use crate::derivation::{address_view, program_address_created, record_seeds, vault_authority};
use crate::error::{settled, CustomError};
use crate::native::{release, released, teardown, torn_down};
use crate::pubkey::Pubkey;
use crate::state::escrow_account::EscrowAccount;
use crate::state::escrow_sol_account::EscrowSOLAccount;
use crate::token::{
    associated_token_address, close_account, closed, create_associated_token_account, created,
    get_associated_token_address, transfer_checked, transferred, Mint, TokenAccount,
};

verus! {

/// The entries that the redemption of a lock of tokens works on.
#[derive(Clone, Copy, Debug, PartialEq, Eq)]
pub struct RedeemFundsSPL {
    /// Who submits the redemption: pays for the claimant's token account
    /// where it has to be created, and receives what the vault held for its
    /// storage.
    pub signer: SystemAccount,
    /// The claimant: receives what the record's entry held for its storage.
    pub recipient: SystemAccount,
    /// The record.
    pub escrow_account: Account<EscrowAccount>,
    /// The vault: the record's token account.
    pub escrow_token_account: Account<TokenAccount>,
    /// The claimant's token account, which receives the locked amount. It is
    /// created where it does not exist.
    pub recipient_token_account: Account<TokenAccount>,
    /// The token that the record names.
    pub token_mint: Mint,
    /// The holder named by the record.
    pub sender: SystemAccount,
    /// The program that keeps the token's accounts.
    pub token_program: Pubkey,
    /// The program under which the addresses of token accounts are derived.
    pub associated_token_program: Pubkey,
    /// What the ledger asks a stored entry to hold.
    pub rent: Rent,
}

impl RedeemFundsSPL {
    /// The record that the entries hold, where they are the entries of one
    /// lock: the record exists, it stands at the address that its commitment
    /// and nonce derive, and the token and the holder handed in are the ones
    /// it names.
    pub open spec fn record(self, derived: Option<Seq<u8>>) -> Result<EscrowAccount, CustomError> {
        match self.escrow_account.data {
            None => Err(CustomError::NotFound),
            Some(record) => if derived != Some(self.escrow_account.key@) {
                Err(CustomError::AddressMismatch)
            } else if self.token_mint.key@ != record.token_mint@ {
                Err(CustomError::AssetMismatch)
            } else if self.sender.key@ != record.sender@ {
                Err(CustomError::AddressMismatch)
            } else {
                Ok(record)
            },
        }
    }

    /// Reads the record after checking that the entries belong together.
    pub fn check_accounts(&self, derived: Option<Pubkey>) -> (found: Result<
        EscrowAccount,
        CustomError,
    >)
        ensures
            found == self.record(address_view(derived)),
    {
        match self.escrow_account.data {
            None => Err(CustomError::NotFound),
            Some(record) => {
                match derived {
                    None => {
                        return Err(CustomError::AddressMismatch);
                    },
                    Some(address) => {
                        if address != self.escrow_account.key {
                            return Err(CustomError::AddressMismatch);
                        }
                    },
                }
                if self.token_mint.key != record.token_mint {
                    return Err(CustomError::AssetMismatch);
                }
                if self.sender.key != record.sender {
                    return Err(CustomError::AddressMismatch);
                }
                Ok(record)
            },
        }
    }

    /// Whether a digest opens the record's commitment.
    pub open spec fn secret_verdict(self, digest: Seq<u8>) -> Result<(), CustomError> {
        match self.escrow_account.data {
            None => Err(CustomError::NotFound),
            Some(record) => digest_verdict(record.hash_of_secret@, digest),
        }
    }

    /// Hashes the secret offered and compares the digest with the record's
    /// commitment.
    pub fn verify_secret(&self, secret: &str) -> (done: Result<(), CustomError>)
        ensures
            done == self.secret_verdict(sha256_digest(secret.spec_bytes())),
    {
        match self.escrow_account.data {
            None => Err(CustomError::NotFound),
            Some(record) => check_secret(&record.hash_of_secret, secret),
        }
    }

    /// Compares the digest of the secret offered with the record's commitment.
    pub fn verify_digest(&self, provided_hash: &[u8; 32]) -> (done: Result<(), CustomError>)
        ensures
            done == self.secret_verdict(provided_hash@),
    {
        match self.escrow_account.data {
            None => Err(CustomError::NotFound),
            Some(record) => check_digest(&record.hash_of_secret, provided_hash),
        }
    }

    /// The entries once the claimant's token account is there to receive
    /// the token. Where it does not exist, it is created at the address
    /// derived for the claimant and the token, paid for by the submitter.
    /// Where it exists, it has to hold the token, belong to the claimant and
    /// stand at that address; nothing changes then.
    pub open spec fn destination_ready(self, recipient_address: Option<Seq<u8>>) -> Result<
        RedeemFundsSPL,
        CustomError,
    > {
        match self.recipient_token_account.data {
            None => match created(
                self.signer,
                self.recipient_token_account,
                recipient_address,
                self.recipient.key,
                self.token_mint.key,
                self.rent.token_account,
            ) {
                Err(e) => Err(e),
                Ok((signer, recipient_token_account)) => Ok(
                    RedeemFundsSPL { signer, recipient_token_account, ..self },
                ),
            },
            Some(destination) => if destination.mint@ != self.token_mint.key@ {
                Err(CustomError::AssetMismatch)
            } else if destination.owner@ != self.recipient.key@ {
                Err(CustomError::AddressMismatch)
            } else if recipient_address != Some(self.recipient_token_account.key@) {
                Err(CustomError::AddressMismatch)
            } else {
                Ok(self)
            },
        }
    }

    /// Creates the claimant's token account where it does not exist, and
    /// checks it where it does.
    pub fn prepare_recipient_token_account(&mut self, recipient_address: Option<Pubkey>) -> (done:
        Result<(), CustomError>)
        ensures
            settled(
                *old(self),
                *final(self),
                done,
                old(self).destination_ready(address_view(recipient_address)),
            ),
    {
        match self.recipient_token_account.data {
            None => {
                let wallet = self.recipient.key;
                let mint = self.token_mint.key;
                create_associated_token_account(
                    &mut self.signer,
                    &mut self.recipient_token_account,
                    recipient_address,
                    &wallet,
                    &mint,
                    self.rent.token_account,
                )
            },
            Some(destination) => {
                if destination.mint != self.token_mint.key {
                    return Err(CustomError::AssetMismatch);
                }
                if destination.owner != self.recipient.key {
                    return Err(CustomError::AddressMismatch);
                }
                match recipient_address {
                    None => Err(CustomError::AddressMismatch),
                    Some(address) => if address != self.recipient_token_account.key {
                        Err(CustomError::AddressMismatch)
                    } else {
                        Ok(())
                    },
                }
            },
        }
    }

    /// The entries after `amount` of the token has gone from the vault to
    /// the claimant's token account under `authority`.
    pub open spec fn tokens_paid_out(self, amount: u64, authority: Pubkey) -> Result<
        RedeemFundsSPL,
        CustomError,
    > {
        match transferred(
            self.escrow_token_account,
            self.recipient_token_account,
            self.token_mint,
            authority,
            amount,
            self.token_mint.decimals,
        ) {
            Err(e) => Err(e),
            Ok((escrow_token_account, recipient_token_account)) => Ok(
                RedeemFundsSPL { escrow_token_account, recipient_token_account, ..self },
            ),
        }
    }

    /// Moves `amount` of the token from the vault to the claimant's token
    /// account. `authority` is the address derived from the record's seeds,
    /// which alone controls the vault.
    pub fn transfer_tokens_to_recipient(&mut self, amount: u64, authority: &Pubkey) -> (done:
        Result<(), CustomError>)
        ensures
            settled(*old(self), *final(self), done, old(self).tokens_paid_out(amount, *authority)),
    {
        let token = self.token_mint;
        transfer_checked(
            &mut self.escrow_token_account,
            &mut self.recipient_token_account,
            &token,
            authority,
            amount,
            token.decimals,
        )
    }

    /// The entries after the vault is deleted under `authority` and what it
    /// held for its storage is with the submitter.
    pub open spec fn vault_closed(self, authority: Pubkey) -> Result<RedeemFundsSPL, CustomError> {
        match closed(self.escrow_token_account, self.signer, authority) {
            Err(e) => Err(e),
            Ok((escrow_token_account, signer)) => Ok(
                RedeemFundsSPL { escrow_token_account, signer, ..self },
            ),
        }
    }

    /// Deletes the emptied vault. `authority` is the address derived from
    /// the record's seeds.
    pub fn close_escrow_token_account(&mut self, authority: &Pubkey) -> (done: Result<
        (),
        CustomError,
    >)
        ensures
            settled(*old(self), *final(self), done, old(self).vault_closed(*authority)),
    {
        close_account(&mut self.escrow_token_account, &mut self.signer, authority)
    }

    /// The entries after the redemption: the claimant's token account holds
    /// the locked amount on top of what it held, the vault and the record
    /// are destroyed, what the vault held for its storage is with the
    /// submitter and what the record's entry held is with the claimant.
    /// Refused where the entries do not belong together, where the digest is
    /// not the commitment, where the record is already redeemed, where the
    /// claimant's token account cannot be made ready, and where the transfer
    /// or one of the deletions is refused.
    pub open spec fn outcome(
        self,
        derived: Option<Seq<u8>>,
        recipient_address: Option<Seq<u8>>,
        digest: Seq<u8>,
    ) -> Result<RedeemFundsSPL, CustomError> {
        match self.record(derived) {
            Err(e) => Err(e),
            Ok(record) => if digest != record.hash_of_secret@ {
                Err(CustomError::InvalidSecret)
            } else if record.is_redeemed {
                Err(CustomError::AlreadyRedeemed)
            } else {
                match self.destination_ready(recipient_address) {
                    Err(e) => Err(e),
                    Ok(ready) => match ready.tokens_paid_out(
                        record.amount,
                        self.escrow_account.key,
                    ) {
                        Err(e) => Err(e),
                        Ok(paid) => match paid.vault_closed(self.escrow_account.key) {
                            Err(e) => Err(e),
                            Ok(emptied) => match torn_down(
                                emptied.escrow_account,
                                emptied.recipient,
                            ) {
                                Err(e) => Err(e),
                                Ok((escrow_account, recipient)) => Ok(
                                    RedeemFundsSPL { escrow_account, recipient, ..emptied },
                                ),
                            },
                        },
                    },
                }
            },
        }
    }

    /// Redeems the lock with the digest of the secret offered, or refuses and
    /// changes nothing.
    pub fn redeem(
        &mut self,
        derived: Option<Pubkey>,
        recipient_address: Option<Pubkey>,
        provided_hash: &[u8; 32],
    ) -> (done: Result<(), CustomError>)
        ensures
            settled(
                *old(self),
                *final(self),
                done,
                old(self).outcome(
                    address_view(derived),
                    address_view(recipient_address),
                    provided_hash@,
                ),
            ),
    {
        let mut next = *self;
        let record = next.check_accounts(derived)?;
        next.verify_digest(provided_hash)?;
        if record.is_redeemed {
            return Err(CustomError::AlreadyRedeemed);
        }
        next.escrow_account.data = Some(EscrowAccount { is_redeemed: true, ..record });
        next.prepare_recipient_token_account(recipient_address)?;
        let authority = next.escrow_account.key;
        next.transfer_tokens_to_recipient(record.amount, &authority)?;
        next.close_escrow_token_account(&authority)?;
        teardown(&mut next.escrow_account, &mut next.recipient)?;
        *self = next;
        Ok(())
    }
}

/// The address that a stored record of tokens derives, from its commitment
/// and its nonce.
pub open spec fn spl_record_address(program_id: Pubkey, record: EscrowAccount) -> Option<Seq<u8>> {
    program_address_created(
        record_seeds(SEED_ESCROW_SPL@, record.hash_of_secret@).push(seq![record.bump]),
        program_id@,
    )
}

/// What a redemption of tokens with these secret bytes comes to, with every
/// address derived from the entries handed in.
pub open spec fn redeem_funds_spl_outcome(
    ctx: Context<RedeemFundsSPL>,
    secret: Seq<u8>,
) -> Result<RedeemFundsSPL, CustomError> {
    match ctx.accounts.escrow_account.data {
        None => Err(CustomError::NotFound),
        Some(record) => ctx.accounts.outcome(
            spl_record_address(ctx.program_id, record),
            associated_token_address(
                ctx.accounts.recipient.key@,
                ctx.accounts.token_mint.key@,
                ctx.accounts.token_program@,
                ctx.accounts.associated_token_program@,
            ),
            sha256_digest(secret),
        ),
    }
}

/// Redeems a lock of tokens: whoever shows the secret behind the commitment
/// has the locked amount paid to the claimant's token account, at any time
/// while the record exists. The vault and the record are destroyed.
pub fn redeem_funds_spl(ctx: &mut Context<RedeemFundsSPL>, secret: String) -> (done: Result<
    (),
    CustomError,
>)
    ensures
        final(ctx).program_id == old(ctx).program_id,
        settled(
            old(ctx).accounts,
            final(ctx).accounts,
            done,
            redeem_funds_spl_outcome(*old(ctx), vstd::utf8::encode_utf8(secret@)),
        ),
{
    match ctx.accounts.escrow_account.data {
        None => Err(CustomError::NotFound),
        Some(record) => {
            let derived = vault_authority(
                &ctx.program_id,
                SEED_ESCROW_SPL.as_slice(),
                &record.hash_of_secret,
                record.bump,
            );
            let recipient_address = get_associated_token_address(
                &ctx.accounts.recipient.key,
                &ctx.accounts.token_mint.key,
                &ctx.accounts.token_program,
                &ctx.accounts.associated_token_program,
            );
            let provided_hash = commit(secret.as_str().as_bytes());
            ctx.accounts.redeem(derived, recipient_address, &provided_hash)
        },
    }
}

/// The entries that the redemption of a lock of native balance works on.
#[derive(Clone, Copy, Debug, PartialEq, Eq)]
pub struct RedeemFundsSOL {
    /// Who submits the redemption.
    pub signer: SystemAccount,
    /// The claimant: receives the locked amount.
    pub recipient: SystemAccount,
    /// The record, which is also its vault.
    pub escrow_account: Account<EscrowSOLAccount>,
    /// The holder named by the record: receives what the record's entry held
    /// for its storage.
    pub sender: SystemAccount,
}

impl RedeemFundsSOL {
    /// The record that the entries hold, where they are the entries of one
    /// lock: the record exists, it stands at the address that its commitment
    /// and nonce derive, and the holder handed in is the one it names.
    pub open spec fn record(self, derived: Option<Seq<u8>>) -> Result<
        EscrowSOLAccount,
        CustomError,
    > {
        match self.escrow_account.data {
            None => Err(CustomError::NotFound),
            Some(record) => if derived != Some(self.escrow_account.key@) {
                Err(CustomError::AddressMismatch)
            } else if self.sender.key@ != record.sender@ {
                Err(CustomError::AddressMismatch)
            } else {
                Ok(record)
            },
        }
    }

    /// Reads the record after checking that the entries belong together.
    pub fn check_accounts(&self, derived: Option<Pubkey>) -> (found: Result<
        EscrowSOLAccount,
        CustomError,
    >)
        ensures
            found == self.record(address_view(derived)),
    {
        match self.escrow_account.data {
            None => Err(CustomError::NotFound),
            Some(record) => {
                match derived {
                    None => {
                        return Err(CustomError::AddressMismatch);
                    },
                    Some(address) => {
                        if address != self.escrow_account.key {
                            return Err(CustomError::AddressMismatch);
                        }
                    },
                }
                if self.sender.key != record.sender {
                    return Err(CustomError::AddressMismatch);
                }
                Ok(record)
            },
        }
    }

    /// Whether a digest opens the record's commitment.
    pub open spec fn secret_verdict(self, digest: Seq<u8>) -> Result<(), CustomError> {
        match self.escrow_account.data {
            None => Err(CustomError::NotFound),
            Some(record) => digest_verdict(record.hash_of_secret@, digest),
        }
    }

    /// Hashes the secret offered and compares the digest with the record's
    /// commitment.
    pub fn verify_secret(&self, secret: &str) -> (done: Result<(), CustomError>)
        ensures
            done == self.secret_verdict(sha256_digest(secret.spec_bytes())),
    {
        match self.escrow_account.data {
            None => Err(CustomError::NotFound),
            Some(record) => check_secret(&record.hash_of_secret, secret),
        }
    }

    /// Compares the digest of the secret offered with the record's commitment.
    pub fn verify_digest(&self, provided_hash: &[u8; 32]) -> (done: Result<(), CustomError>)
        ensures
            done == self.secret_verdict(provided_hash@),
    {
        match self.escrow_account.data {
            None => Err(CustomError::NotFound),
            Some(record) => check_digest(&record.hash_of_secret, provided_hash),
        }
    }

    /// The entries after `amount` has gone from the vault to the claimant.
    pub open spec fn paid_out(self, amount: u64) -> Result<RedeemFundsSOL, CustomError> {
        match released(self.escrow_account, self.recipient, amount) {
            Err(e) => Err(e),
            Ok((escrow_account, recipient)) => Ok(
                RedeemFundsSOL { escrow_account, recipient, ..self },
            ),
        }
    }

    /// Moves `amount` of native balance from the vault to the claimant.
    pub fn transfer_sol_to_recipient(&mut self, amount: u64) -> (done: Result<(), CustomError>)
        ensures
            settled(*old(self), *final(self), done, old(self).paid_out(amount)),
    {
        release(amount, &mut self.escrow_account, &mut self.recipient)
    }

    /// The entries after the redemption: the claimant holds the locked amount
    /// on top of what they held, the record is destroyed, and what was left
    /// in its entry is with the holder. Refused where the entries do not
    /// belong together, where the digest is not the commitment, where the
    /// record is already redeemed, and where a balance cannot give or take
    /// what is moved.
    pub open spec fn outcome(self, derived: Option<Seq<u8>>, digest: Seq<u8>) -> Result<
        RedeemFundsSOL,
        CustomError,
    > {
        match self.record(derived) {
            Err(e) => Err(e),
            Ok(record) => if digest != record.hash_of_secret@ {
                Err(CustomError::InvalidSecret)
            } else if record.is_redeemed {
                Err(CustomError::AlreadyRedeemed)
            } else {
                match self.paid_out(record.amount) {
                    Err(e) => Err(e),
                    Ok(paid) => match torn_down(paid.escrow_account, paid.sender) {
                        Err(e) => Err(e),
                        Ok((escrow_account, sender)) => Ok(
                            RedeemFundsSOL { escrow_account, sender, ..paid },
                        ),
                    },
                }
            },
        }
    }

    /// Redeems the lock with the digest of the secret offered, or refuses and
    /// changes nothing.
    pub fn redeem(&mut self, derived: Option<Pubkey>, provided_hash: &[u8; 32]) -> (done: Result<
        (),
        CustomError,
    >)
        ensures
            settled(
                *old(self),
                *final(self),
                done,
                old(self).outcome(address_view(derived), provided_hash@),
            ),
    {
        let mut next = *self;
        let record = next.check_accounts(derived)?;
        next.verify_digest(provided_hash)?;
        if record.is_redeemed {
            return Err(CustomError::AlreadyRedeemed);
        }
        next.escrow_account.data = Some(EscrowSOLAccount { is_redeemed: true, ..record });
        next.transfer_sol_to_recipient(record.amount)?;
        teardown(&mut next.escrow_account, &mut next.sender)?;
        *self = next;
        Ok(())
    }
}

/// The address that a stored record of native balance derives, from its
/// commitment and its nonce.
pub open spec fn sol_record_address(program_id: Pubkey, record: EscrowSOLAccount) -> Option<
    Seq<u8>,
> {
    program_address_created(
        record_seeds(SEED_ESCROW_SOL@, record.hash_of_secret@).push(seq![record.bump]),
        program_id@,
    )
}

/// What a redemption with these secret bytes comes to.
pub open spec fn redeem_funds_sol_outcome(
    ctx: Context<RedeemFundsSOL>,
    secret: Seq<u8>,
) -> Result<RedeemFundsSOL, CustomError> {
    match ctx.accounts.escrow_account.data {
        None => Err(CustomError::NotFound),
        Some(record) => ctx.accounts.outcome(
            sol_record_address(ctx.program_id, record),
            sha256_digest(secret),
        ),
    }
}

/// Redeems a lock of native balance: whoever shows the secret behind the
/// commitment has the locked amount paid to the claimant, at any time while
/// the record exists. The record is destroyed.
pub fn redeem_funds_sol(ctx: &mut Context<RedeemFundsSOL>, secret: String) -> (done: Result<
    (),
    CustomError,
>)
    ensures
        final(ctx).program_id == old(ctx).program_id,
        settled(
            old(ctx).accounts,
            final(ctx).accounts,
            done,
            redeem_funds_sol_outcome(*old(ctx), vstd::utf8::encode_utf8(secret@)),
        ),
{
    match ctx.accounts.escrow_account.data {
        None => Err(CustomError::NotFound),
        Some(record) => {
            let derived = vault_authority(
                &ctx.program_id,
                SEED_ESCROW_SOL.as_slice(),
                &record.hash_of_secret,
                record.bump,
            );
            let provided_hash = commit(secret.as_str().as_bytes());
            ctx.accounts.redeem(derived, &provided_hash)
        },
    }
}

} // verus!
