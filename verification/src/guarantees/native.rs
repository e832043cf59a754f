use vstd::prelude::*;
use crate::accounts::{Account, Context, SystemAccount};
use crate::commitment::sha256_digest;
use crate::constants::SEED_ESCROW_SOL;
use crate::derivation::{lemma_search_gives_created, program_address_found, record_seeds};
use crate::error::{settled, CustomError};
use crate::instructions::initialize_transfer::{
    initialize_transfer_sol_outcome, InitializeTransferSOL,
};
use crate::instructions::redeem_funds::{
    redeem_funds_sol_outcome, sol_record_address, RedeemFundsSOL,
};
use crate::instructions::refund_funds::{refund_funds_sol_outcome, RefundFundsSOL};
use crate::native::funding_needed;
use crate::pubkey::Pubkey;
use crate::state::escrow_sol_account::EscrowSOLAccount;

verus! {

/// A record of native balance whose entry holds at least the amount that
/// the record states: the vault covers the lock.
pub open spec fn sol_vault_covers(entry: Account<EscrowSOLAccount>) -> bool {
    match entry.data {
        Some(record) => entry.lamports >= record.amount,
        None => true,
    }
}

/// A lock of native balance that was created stands at the address that a
/// redemption or a refund derives again from what the record stores; the
/// record states the amount, the deadline, the commitment and the holder as
/// given, is not redeemed, and its entry holds the amount on top of what it
/// held for its storage; the holder has paid exactly what the entry gained.
pub proof fn lemma_initialize_sol_creates(
    ctx: Context<InitializeTransferSOL>,
    amount: u64,
    expiration_time: i64,
    hash_of_secret: [u8; 32],
)
    requires
        initialize_transfer_sol_outcome(ctx, amount, expiration_time, hash_of_secret) is Ok,
    ensures
        ({
            let after = initialize_transfer_sol_outcome(
                ctx,
                amount,
                expiration_time,
                hash_of_secret,
            )->Ok_0;
            &&& after.escrow_account.key == ctx.accounts.escrow_account.key
            &&& after.escrow_account.data matches Some(record)
            &&& record.sender == ctx.accounts.sender.key
            &&& record.amount == amount
            &&& record.expiration_time == expiration_time
            &&& record.hash_of_secret == hash_of_secret
            &&& !record.is_redeemed
            &&& sol_record_address(ctx.program_id, record) == Some(after.escrow_account.key@)
            &&& sol_vault_covers(after.escrow_account)
            &&& after.escrow_account.lamports >= ctx.accounts.escrow_account.lamports + amount
            &&& after.sender.key == ctx.accounts.sender.key
            &&& after.sender.lamports + after.escrow_account.lamports
                == ctx.accounts.sender.lamports + ctx.accounts.escrow_account.lamports
        }),
{
    lemma_search_gives_created(
        record_seeds(SEED_ESCROW_SOL@, hash_of_secret@),
        ctx.program_id@,
        255,
    );
}

/// When a lock of native balance is created, and what it leaves. It is
/// created exactly where the place handed in is the address that the
/// commitment derives, holds no record yet, and the holder can pay what the
/// entry lacks for its storage and then the amount, which the entry can
/// hold. The holder has then paid both, and the entry holds them with the
/// record.
pub proof fn lemma_initialize_sol_effect(
    ctx: Context<InitializeTransferSOL>,
    amount: u64,
    expiration_time: i64,
    hash_of_secret: [u8; 32],
)
    ensures
        ({
            let found = program_address_found(
                record_seeds(SEED_ESCROW_SOL@, hash_of_secret@),
                ctx.program_id@,
            );
            let entry = ctx.accounts.escrow_account;
            let storage = funding_needed(entry.lamports, ctx.accounts.rent.escrow_account);
            let outcome = initialize_transfer_sol_outcome(
                ctx,
                amount,
                expiration_time,
                hash_of_secret,
            );
            &&& outcome is Ok <==> {
                &&& found matches Some((address, _)) && address == entry.key@
                &&& entry.data is None
                &&& ctx.accounts.sender.lamports >= storage + amount
                &&& entry.lamports + storage + amount <= u64::MAX
            }
            &&& outcome matches Ok(after) ==> after == (InitializeTransferSOL {
                sender: SystemAccount {
                    key: ctx.accounts.sender.key,
                    lamports: (ctx.accounts.sender.lamports - storage - amount) as u64,
                },
                escrow_account: Account {
                    key: entry.key,
                    lamports: (entry.lamports + storage + amount) as u64,
                    data: Some(
                        EscrowSOLAccount::fresh(
                            ctx.accounts.sender.key,
                            amount,
                            expiration_time,
                            hash_of_secret,
                            found->Some_0.1,
                        ),
                    ),
                },
                rent: ctx.accounts.rent,
            })
        }),
{
}

/// When a lock of native balance is redeemed, and what that leaves. It is
/// redeemed exactly where the record exists at the address that it derives,
/// the holder handed in is the one it names, the secret hashes to its
/// commitment, it is not redeemed yet, its entry holds the amount, and the
/// claimant and the holder can hold what they receive. The claimant then
/// holds the amount more, the holder what the entry held beyond it, and the
/// entry nothing.
pub proof fn lemma_redeem_sol_effect(ctx: Context<RedeemFundsSOL>, secret: Seq<u8>)
    ensures
        ({
            let entry = ctx.accounts.escrow_account;
            let outcome = redeem_funds_sol_outcome(ctx, secret);
            &&& outcome is Ok <==> {
                &&& entry.data matches Some(record)
                &&& sol_record_address(ctx.program_id, record) == Some(entry.key@)
                &&& ctx.accounts.sender.key == record.sender
                &&& sha256_digest(secret) == record.hash_of_secret@
                &&& !record.is_redeemed
                &&& entry.lamports >= record.amount
                &&& ctx.accounts.recipient.lamports + record.amount <= u64::MAX
                &&& ctx.accounts.sender.lamports + entry.lamports - record.amount <= u64::MAX
            }
            &&& outcome matches Ok(after) ==> after == (RedeemFundsSOL {
                signer: ctx.accounts.signer,
                recipient: SystemAccount {
                    key: ctx.accounts.recipient.key,
                    lamports: (ctx.accounts.recipient.lamports + entry.data->Some_0.amount) as u64,
                },
                escrow_account: Account { key: entry.key, lamports: 0, data: None },
                sender: SystemAccount {
                    key: ctx.accounts.sender.key,
                    lamports: (ctx.accounts.sender.lamports + entry.lamports
                        - entry.data->Some_0.amount) as u64,
                },
            })
        }),
{
    if let Some(record) = ctx.accounts.escrow_account.data {
        Pubkey::lemma_view_injective(ctx.accounts.sender.key, record.sender);
    }
}

/// When a lock of native balance is refunded, and what that leaves. It is
/// refunded exactly where the record exists at the address that it derives,
/// the holder handed in is the one it names, the secret hashes to its
/// commitment, it is not redeemed, the instant is past the deadline, its
/// entry holds the amount, and the holder can hold what the entry holds.
/// The holder then holds all of that more, and the entry nothing.
pub proof fn lemma_refund_sol_effect(
    ctx: Context<RefundFundsSOL>,
    secret: Seq<u8>,
    unix_timestamp: i64,
)
    ensures
        ({
            let entry = ctx.accounts.escrow_account;
            let outcome = refund_funds_sol_outcome(ctx, secret, unix_timestamp);
            &&& outcome is Ok <==> {
                &&& entry.data matches Some(record)
                &&& sol_record_address(ctx.program_id, record) == Some(entry.key@)
                &&& ctx.accounts.sender.key == record.sender
                &&& sha256_digest(secret) == record.hash_of_secret@
                &&& !record.is_redeemed
                &&& unix_timestamp > record.expiration_time
                &&& entry.lamports >= record.amount
                &&& ctx.accounts.sender.lamports + entry.lamports <= u64::MAX
            }
            &&& outcome matches Ok(after) ==> after == (RefundFundsSOL {
                signer: ctx.accounts.signer,
                escrow_account: Account { key: entry.key, lamports: 0, data: None },
                sender: SystemAccount {
                    key: ctx.accounts.sender.key,
                    lamports: (ctx.accounts.sender.lamports + entry.lamports) as u64,
                },
            })
        }),
{
    if let Some(record) = ctx.accounts.escrow_account.data {
        Pubkey::lemma_view_injective(ctx.accounts.sender.key, record.sender);
    }
}

/// A lock of native balance, redeemed right after its creation with a
/// secret that hashes to the commitment, pays exactly the locked amount to
/// the claimant and leaves neither record nor vault: the entry is empty and
/// what it held beyond the amount is with the holder. The redemption is
/// refused only where the claimant or the holder could not hold what they
/// are to receive.
pub proof fn lemma_initialize_then_redeem_sol(
    init: Context<InitializeTransferSOL>,
    amount: u64,
    expiration_time: i64,
    hash_of_secret: [u8; 32],
    redeem: Context<RedeemFundsSOL>,
    secret: Seq<u8>,
)
    requires
        initialize_transfer_sol_outcome(init, amount, expiration_time, hash_of_secret) is Ok,
        redeem.program_id == init.program_id,
        redeem.accounts.escrow_account == initialize_transfer_sol_outcome(
            init,
            amount,
            expiration_time,
            hash_of_secret,
        )->Ok_0.escrow_account,
        redeem.accounts.sender.key == init.accounts.sender.key,
        sha256_digest(secret) == hash_of_secret@,
    ensures
        match redeem_funds_sol_outcome(redeem, secret) {
            Ok(after) => {
                &&& after.recipient.key == redeem.accounts.recipient.key
                &&& after.recipient.lamports == redeem.accounts.recipient.lamports + amount
                &&& after.escrow_account.data is None
                &&& after.escrow_account.lamports == 0
                &&& after.sender.lamports == redeem.accounts.sender.lamports
                    + redeem.accounts.escrow_account.lamports - amount
                &&& after.signer == redeem.accounts.signer
            },
            Err(e) => {
                &&& e == CustomError::BalanceOverflow
                &&& (redeem.accounts.recipient.lamports + amount > u64::MAX
                    || redeem.accounts.sender.lamports + redeem.accounts.escrow_account.lamports
                    - amount > u64::MAX)
            },
        },
{
    lemma_initialize_sol_creates(init, amount, expiration_time, hash_of_secret);
}

/// A redemption of native balance with a secret that does not hash to the
/// commitment of the record is refused as an invalid secret, whatever else
/// holds of the record, and leaves every entry as it was.
pub proof fn lemma_wrong_secret_redeems_nothing_sol(
    ctx: Context<RedeemFundsSOL>,
    secret: Seq<u8>,
    after: RedeemFundsSOL,
    done: Result<(), CustomError>,
)
    requires
        ctx.accounts.escrow_account.data matches Some(record) && ctx.accounts.record(
            sol_record_address(ctx.program_id, record),
        ) is Ok && sha256_digest(secret) != record.hash_of_secret@,
        settled(ctx.accounts, after, done, redeem_funds_sol_outcome(ctx, secret)),
    ensures
        done == Err::<(), CustomError>(CustomError::InvalidSecret),
        after == ctx.accounts,
{
}

/// After a redemption of native balance has succeeded, no redemption of the
/// record it left succeeds: the record is not found, whoever asks and with
/// whatever secret.
pub proof fn lemma_no_second_redeem_sol(
    first: Context<RedeemFundsSOL>,
    first_secret: Seq<u8>,
    second: Context<RedeemFundsSOL>,
    second_secret: Seq<u8>,
)
    requires
        redeem_funds_sol_outcome(first, first_secret) is Ok,
        second.accounts.escrow_account == redeem_funds_sol_outcome(
            first,
            first_secret,
        )->Ok_0.escrow_account,
    ensures
        redeem_funds_sol_outcome(second, second_secret) == Err::<RedeemFundsSOL, CustomError>(
            CustomError::NotFound,
        ),
{
}

/// A record of native balance that is marked as redeemed is never redeemed
/// again: with the right secret the refusal says so.
pub proof fn lemma_redeemed_record_stays_redeemed_sol(ctx: Context<RedeemFundsSOL>, secret: Seq<u8>)
    requires
        ctx.accounts.escrow_account.data matches Some(record) && record.is_redeemed,
    ensures
        redeem_funds_sol_outcome(ctx, secret) is Err,
        ctx.accounts.escrow_account.data matches Some(record) && (ctx.accounts.record(
            sol_record_address(ctx.program_id, record),
        ) is Ok && sha256_digest(secret) == record.hash_of_secret@ ==> redeem_funds_sol_outcome(
            ctx,
            secret,
        ) == Err::<RedeemFundsSOL, CustomError>(CustomError::AlreadyRedeemed)),
{
}

/// A refund of native balance at or before the deadline is refused, whatever
/// the secret; with the secret of a record that is not redeemed, the refusal
/// says that the lock has not expired.
pub proof fn lemma_no_refund_before_deadline_sol(
    ctx: Context<RefundFundsSOL>,
    secret: Seq<u8>,
    unix_timestamp: i64,
)
    requires
        ctx.accounts.escrow_account.data matches Some(record) && unix_timestamp
            <= record.expiration_time,
    ensures
        refund_funds_sol_outcome(ctx, secret, unix_timestamp) is Err,
        ctx.accounts.escrow_account.data matches Some(record) && (ctx.accounts.record(
            sol_record_address(ctx.program_id, record),
        ) is Ok && sha256_digest(secret) == record.hash_of_secret@ && !record.is_redeemed
            ==> refund_funds_sol_outcome(ctx, secret, unix_timestamp) == Err::<
            RefundFundsSOL,
            CustomError,
        >(CustomError::NotExpired)),
{
}

/// A refund of native balance after the deadline, with the secret of a
/// record that is not redeemed and whose vault covers the lock, succeeds:
/// the holder has the locked amount back, and with it what the entry held
/// for its storage, and the record is destroyed. It is refused only where
/// the holder could not hold that much.
pub proof fn lemma_refund_after_deadline_sol(
    ctx: Context<RefundFundsSOL>,
    secret: Seq<u8>,
    unix_timestamp: i64,
)
    requires
        ctx.accounts.escrow_account.data matches Some(record) && ctx.accounts.record(
            sol_record_address(ctx.program_id, record),
        ) is Ok && sha256_digest(secret) == record.hash_of_secret@ && !record.is_redeemed
            && unix_timestamp > record.expiration_time,
        sol_vault_covers(ctx.accounts.escrow_account),
    ensures
        match refund_funds_sol_outcome(ctx, secret, unix_timestamp) {
            Ok(after) => {
                &&& after.sender.key == ctx.accounts.sender.key
                &&& after.sender.lamports == ctx.accounts.sender.lamports
                    + ctx.accounts.escrow_account.lamports
                &&& after.sender.lamports >= ctx.accounts.sender.lamports
                    + ctx.accounts.escrow_account.data->Some_0.amount
                &&& after.escrow_account.data is None
                &&& after.escrow_account.lamports == 0
                &&& after.signer == ctx.accounts.signer
            },
            Err(e) => {
                &&& e == CustomError::BalanceOverflow
                &&& ctx.accounts.sender.lamports + ctx.accounts.escrow_account.lamports
                    > u64::MAX
            },
        },
{
}

/// Of a redemption and a refund that go for one record of native balance,
/// the one that comes second is refused, whichever comes first: it finds no
/// record. So the locked amount is paid once, to the claimant or to the
/// holder, and never to both.
pub proof fn lemma_redeem_excludes_refund_sol(
    redeem: Context<RedeemFundsSOL>,
    redeem_secret: Seq<u8>,
    refund: Context<RefundFundsSOL>,
    refund_secret: Seq<u8>,
    unix_timestamp: i64,
)
    requires
        redeem.accounts.escrow_account == refund.accounts.escrow_account,
    ensures
        match redeem_funds_sol_outcome(redeem, redeem_secret) {
            Ok(redeemed) => refund_funds_sol_outcome(
                Context {
                    accounts: RefundFundsSOL {
                        escrow_account: redeemed.escrow_account,
                        ..refund.accounts
                    },
                    ..refund
                },
                refund_secret,
                unix_timestamp,
            ) == Err::<RefundFundsSOL, CustomError>(CustomError::NotFound),
            Err(_) => true,
        },
        match refund_funds_sol_outcome(refund, refund_secret, unix_timestamp) {
            Ok(refunded) => redeem_funds_sol_outcome(
                Context {
                    accounts: RedeemFundsSOL {
                        escrow_account: refunded.escrow_account,
                        ..redeem.accounts
                    },
                    ..redeem
                },
                redeem_secret,
            ) == Err::<RedeemFundsSOL, CustomError>(CustomError::NotFound),
            Err(_) => true,
        },
{
}

/// A redemption or a refund of native balance that succeeds destroys the
/// record: its entry holds neither data nor balance afterwards, and its
/// place is the same.
pub proof fn lemma_settlement_destroys_the_record_sol(
    redeem: Context<RedeemFundsSOL>,
    refund: Context<RefundFundsSOL>,
    secret: Seq<u8>,
    unix_timestamp: i64,
)
    ensures
        match redeem_funds_sol_outcome(redeem, secret) {
            Ok(after) => after.escrow_account == (Account::<EscrowSOLAccount> {
                key: redeem.accounts.escrow_account.key,
                lamports: 0,
                data: None,
            }),
            Err(_) => true,
        },
        match refund_funds_sol_outcome(refund, secret, unix_timestamp) {
            Ok(after) => after.escrow_account == (Account::<EscrowSOLAccount> {
                key: refund.accounts.escrow_account.key,
                lamports: 0,
                data: None,
            }),
            Err(_) => true,
        },
{
}

/// No operation on a lock of native balance makes or loses value: what the
/// entries hold together is the same before and after a creation, a
/// redemption and a refund.
pub proof fn lemma_native_balance_is_conserved(
    init: Context<InitializeTransferSOL>,
    amount: u64,
    expiration_time: i64,
    hash_of_secret: [u8; 32],
    redeem: Context<RedeemFundsSOL>,
    refund: Context<RefundFundsSOL>,
    secret: Seq<u8>,
    unix_timestamp: i64,
)
    ensures
        match initialize_transfer_sol_outcome(init, amount, expiration_time, hash_of_secret) {
            Ok(after) => after.sender.lamports + after.escrow_account.lamports
                == init.accounts.sender.lamports + init.accounts.escrow_account.lamports,
            Err(_) => true,
        },
        match redeem_funds_sol_outcome(redeem, secret) {
            Ok(after) => after.signer.lamports + after.recipient.lamports
                + after.escrow_account.lamports + after.sender.lamports
                == redeem.accounts.signer.lamports + redeem.accounts.recipient.lamports
                + redeem.accounts.escrow_account.lamports + redeem.accounts.sender.lamports,
            Err(_) => true,
        },
        match refund_funds_sol_outcome(refund, secret, unix_timestamp) {
            Ok(after) => after.signer.lamports + after.escrow_account.lamports
                + after.sender.lamports == refund.accounts.signer.lamports
                + refund.accounts.escrow_account.lamports + refund.accounts.sender.lamports,
            Err(_) => true,
        },
{
}

} // verus!
