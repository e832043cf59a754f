use vstd::prelude::*;
use crate::accounts::{Account, Context, SystemAccount};
use crate::commitment::sha256_digest;
use crate::constants::SEED_ESCROW_SPL;
use crate::derivation::{lemma_search_gives_created, program_address_found, record_seeds};
use crate::error::{settled, CustomError};
use crate::instructions::initialize_transfer::{
    initialize_transfer_spl_outcome, InitializeTransferSPL,
};
use crate::instructions::redeem_funds::{
    redeem_funds_spl_outcome, spl_record_address, RedeemFundsSPL,
};
use crate::instructions::refund_funds::{refund_funds_spl_outcome, RefundFundsSPL};
use crate::native::funding_needed;
use crate::pubkey::Pubkey;
use crate::state::escrow_account::EscrowAccount;
use crate::token::{associated_token_address, TokenAccount};

verus! {

/// The vault of a record of tokens as a lock leaves it: a token account of
/// the record's token, controlled by the record's address, that holds
/// exactly the amount that the record states.
pub open spec fn spl_vault_matches(
    entry: Account<EscrowAccount>,
    vault: Account<TokenAccount>,
) -> bool {
    match entry.data {
        Some(record) => vault.data == Some(
            TokenAccount { mint: record.token_mint, owner: entry.key, amount: record.amount },
        ),
        None => true,
    }
}

/// The number of tokens that a token account holds; none where it does not
/// exist.
pub open spec fn tokens_held(account: Account<TokenAccount>) -> int {
    match account.data {
        Some(state) => state.amount as int,
        None => 0,
    }
}

/// A lock of tokens that was created stands at the address that a
/// redemption or a refund derives again from what the record stores; the
/// record states the amount, the deadline, the commitment, the token and
/// the holder as given and is not redeemed; the vault is controlled by the
/// record's address and holds exactly the amount, which the holder's token
/// account has lost.
pub proof fn lemma_initialize_spl_creates(
    ctx: Context<InitializeTransferSPL>,
    amount: u64,
    expiration_time: i64,
    hash_of_secret: [u8; 32],
)
    requires
        initialize_transfer_spl_outcome(ctx, amount, expiration_time, hash_of_secret) is Ok,
    ensures
        ({
            let after = initialize_transfer_spl_outcome(
                ctx,
                amount,
                expiration_time,
                hash_of_secret,
            )->Ok_0;
            &&& after.escrow_account.key == ctx.accounts.escrow_account.key
            &&& after.escrow_account.data matches Some(record)
            &&& record.sender == ctx.accounts.sender.key
            &&& record.amount == amount
            &&& record.expiration_time == expiration_time
            &&& record.hash_of_secret == hash_of_secret
            &&& record.token_mint == ctx.accounts.token_mint.key
            &&& !record.is_redeemed
            &&& spl_record_address(ctx.program_id, record) == Some(after.escrow_account.key@)
            &&& after.escrow_token_account.key == ctx.accounts.escrow_token_account.key
            &&& spl_vault_matches(after.escrow_account, after.escrow_token_account)
            &&& ctx.accounts.sender_token_account.data matches Some(before)
            &&& after.sender_token_account.data == Some(
                TokenAccount { amount: (before.amount - amount) as u64, ..before },
            )
            &&& before.amount >= amount
            &&& after.token_mint == ctx.accounts.token_mint
        }),
{
    lemma_search_gives_created(
        record_seeds(SEED_ESCROW_SPL@, hash_of_secret@),
        ctx.program_id@,
        255,
    );
}

/// When a lock of tokens is created, and what it leaves. It is created
/// exactly where the places handed in for the record and for its vault are
/// the addresses derived for them and hold nothing yet, the holder can pay
/// what both lack for their storage, and the holder's token account exists
/// at the address derived for it, belongs to the holder, is of the token
/// and holds the amount. The holder has then paid for the storage, the
/// record is written, and the amount has gone from the holder's token
/// account into the vault, which the record's address controls.
pub proof fn lemma_initialize_spl_effect(
    ctx: Context<InitializeTransferSPL>,
    amount: u64,
    expiration_time: i64,
    hash_of_secret: [u8; 32],
)
    ensures
        ({
            let found = program_address_found(
                record_seeds(SEED_ESCROW_SPL@, hash_of_secret@),
                ctx.program_id@,
            );
            let accounts = ctx.accounts;
            let entry = accounts.escrow_account;
            let vault = accounts.escrow_token_account;
            let source = accounts.sender_token_account;
            let for_record = funding_needed(entry.lamports, accounts.rent.escrow_account);
            let for_vault = funding_needed(vault.lamports, accounts.rent.token_account);
            let outcome = initialize_transfer_spl_outcome(
                ctx,
                amount,
                expiration_time,
                hash_of_secret,
            );
            &&& outcome is Ok <==> {
                &&& found matches Some((address, _)) && address == entry.key@
                &&& entry.data is None
                &&& associated_token_address(
                    entry.key@,
                    accounts.token_mint.key@,
                    accounts.token_program@,
                    accounts.associated_token_program@,
                ) == Some(vault.key@)
                &&& vault.data is None
                &&& accounts.sender.lamports >= for_record + for_vault
                &&& source.data matches Some(held)
                &&& held.owner == accounts.sender.key
                &&& associated_token_address(
                    accounts.sender.key@,
                    accounts.token_mint.key@,
                    accounts.token_program@,
                    accounts.associated_token_program@,
                ) == Some(source.key@)
                &&& held.mint == accounts.token_mint.key
                &&& held.amount >= amount
            }
            &&& outcome matches Ok(after) ==> after == (InitializeTransferSPL {
                sender: SystemAccount {
                    key: accounts.sender.key,
                    lamports: (accounts.sender.lamports - for_record - for_vault) as u64,
                },
                escrow_account: Account {
                    key: entry.key,
                    lamports: (entry.lamports + for_record) as u64,
                    data: Some(
                        EscrowAccount::fresh(
                            accounts.sender.key,
                            amount,
                            expiration_time,
                            accounts.token_mint.key,
                            hash_of_secret,
                            found->Some_0.1,
                        ),
                    ),
                },
                escrow_token_account: Account {
                    key: vault.key,
                    lamports: (vault.lamports + for_vault) as u64,
                    data: Some(
                        TokenAccount { mint: accounts.token_mint.key, owner: entry.key, amount },
                    ),
                },
                sender_token_account: Account {
                    data: Some(
                        TokenAccount {
                            amount: (source.data->Some_0.amount - amount) as u64,
                            ..source.data->Some_0
                        },
                    ),
                    ..source
                },
                ..accounts
            })
        }),
{
    if let Some(held) = ctx.accounts.sender_token_account.data {
        Pubkey::lemma_view_injective(held.owner, ctx.accounts.sender.key);
        Pubkey::lemma_view_injective(held.mint, ctx.accounts.token_mint.key);
    }
}

/// When a lock of tokens is redeemed, and what that leaves. It is redeemed
/// exactly where the record exists at the address that it derives, the
/// token and the holder handed in are the ones it names, the secret hashes
/// to its commitment, it is not redeemed yet, the claimant's token account
/// is or can be made ready, the vault is a token account of the token that
/// the record's address controls and that holds exactly the amount, the
/// vault is another place than the submitter, and each balance can hold
/// what it receives. The claimant's token account then holds the amount
/// more, the submitter what the vault held of native balance, the claimant
/// what the record's entry held, and the vault and the record's entry
/// nothing.
pub proof fn lemma_redeem_spl_effect(ctx: Context<RedeemFundsSPL>, secret: Seq<u8>)
    ensures
        ({
            let accounts = ctx.accounts;
            let entry = accounts.escrow_account;
            let vault = accounts.escrow_token_account;
            let prepared = accounts.destination_ready(
                associated_token_address(
                    accounts.recipient.key@,
                    accounts.token_mint.key@,
                    accounts.token_program@,
                    accounts.associated_token_program@,
                ),
            );
            let outcome = redeem_funds_spl_outcome(ctx, secret);
            &&& outcome is Ok <==> {
                &&& entry.data matches Some(record)
                &&& spl_record_address(ctx.program_id, record) == Some(entry.key@)
                &&& accounts.token_mint.key == record.token_mint
                &&& accounts.sender.key == record.sender
                &&& sha256_digest(secret) == record.hash_of_secret@
                &&& !record.is_redeemed
                &&& prepared matches Ok(ready)
                &&& vault.data == Some(
                    TokenAccount {
                        mint: record.token_mint,
                        owner: entry.key,
                        amount: record.amount,
                    },
                )
                &&& tokens_held(ready.recipient_token_account) + record.amount <= u64::MAX
                &&& vault.key != accounts.signer.key
                &&& ready.signer.lamports + vault.lamports <= u64::MAX
                &&& accounts.recipient.lamports + entry.lamports <= u64::MAX
            }
            &&& outcome matches Ok(after) ==> after == (RedeemFundsSPL {
                signer: SystemAccount {
                    key: accounts.signer.key,
                    lamports: (prepared->Ok_0.signer.lamports + vault.lamports) as u64,
                },
                recipient: SystemAccount {
                    key: accounts.recipient.key,
                    lamports: (accounts.recipient.lamports + entry.lamports) as u64,
                },
                escrow_account: Account { key: entry.key, lamports: 0, data: None },
                escrow_token_account: Account { key: vault.key, lamports: 0, data: None },
                recipient_token_account: Account {
                    data: Some(
                        TokenAccount {
                            mint: accounts.token_mint.key,
                            owner: accounts.recipient.key,
                            amount: (tokens_held(prepared->Ok_0.recipient_token_account)
                                + entry.data->Some_0.amount) as u64,
                        },
                    ),
                    ..prepared->Ok_0.recipient_token_account
                },
                ..accounts
            })
        }),
{
    let accounts = ctx.accounts;
    if let Some(record) = accounts.escrow_account.data {
        Pubkey::lemma_view_injective(accounts.sender.key, record.sender);
        Pubkey::lemma_view_injective(accounts.token_mint.key, record.token_mint);
        Pubkey::lemma_view_injective(
            accounts.escrow_token_account.key,
            accounts.signer.key,
        );
        if let Some(held) = accounts.escrow_token_account.data {
            Pubkey::lemma_view_injective(held.mint, record.token_mint);
            Pubkey::lemma_view_injective(held.owner, accounts.escrow_account.key);
        }
        if let Some(destination) = accounts.recipient_token_account.data {
            Pubkey::lemma_view_injective(destination.mint, accounts.token_mint.key);
            Pubkey::lemma_view_injective(destination.owner, accounts.recipient.key);
        }
    }
}

/// When a lock of tokens is refunded, and what that leaves. It is refunded
/// exactly where the record exists at the address that it derives, the
/// token and the holder handed in are the ones it names, the holder's token
/// account exists, belongs to the holder and is of the token, the secret
/// hashes to the commitment, the record is not redeemed, the instant is
/// past the deadline, the vault is a token account of the token that the
/// record's address controls and that holds exactly the amount, the vault
/// is another place than the holder, and each balance can hold what it
/// receives. The holder's token account then holds the amount more, the
/// holder what the vault and the record's entry held of native balance, and
/// the vault and the record's entry nothing.
pub proof fn lemma_refund_spl_effect(
    ctx: Context<RefundFundsSPL>,
    secret: Seq<u8>,
    unix_timestamp: i64,
)
    ensures
        ({
            let accounts = ctx.accounts;
            let entry = accounts.escrow_account;
            let vault = accounts.escrow_token_account;
            let outcome = refund_funds_spl_outcome(ctx, secret, unix_timestamp);
            &&& outcome is Ok <==> {
                &&& entry.data matches Some(record)
                &&& spl_record_address(ctx.program_id, record) == Some(entry.key@)
                &&& accounts.token_mint.key == record.token_mint
                &&& accounts.sender.key == record.sender
                &&& accounts.sender_token_account.data matches Some(destination)
                &&& destination.owner == record.sender
                &&& destination.mint == record.token_mint
                &&& sha256_digest(secret) == record.hash_of_secret@
                &&& !record.is_redeemed
                &&& unix_timestamp > record.expiration_time
                &&& vault.data == Some(
                    TokenAccount {
                        mint: record.token_mint,
                        owner: entry.key,
                        amount: record.amount,
                    },
                )
                &&& destination.amount + record.amount <= u64::MAX
                &&& vault.key != accounts.sender.key
                &&& accounts.sender.lamports + vault.lamports + entry.lamports <= u64::MAX
            }
            &&& outcome matches Ok(after) ==> after == (RefundFundsSPL {
                sender: SystemAccount {
                    key: accounts.sender.key,
                    lamports: (accounts.sender.lamports + vault.lamports + entry.lamports) as u64,
                },
                escrow_account: Account { key: entry.key, lamports: 0, data: None },
                escrow_token_account: Account { key: vault.key, lamports: 0, data: None },
                sender_token_account: Account {
                    data: Some(
                        TokenAccount {
                            amount: (accounts.sender_token_account.data->Some_0.amount
                                + entry.data->Some_0.amount) as u64,
                            ..accounts.sender_token_account.data->Some_0
                        },
                    ),
                    ..accounts.sender_token_account
                },
                ..accounts
            })
        }),
{
    let accounts = ctx.accounts;
    if let Some(record) = accounts.escrow_account.data {
        Pubkey::lemma_view_injective(accounts.sender.key, record.sender);
        Pubkey::lemma_view_injective(accounts.token_mint.key, record.token_mint);
        Pubkey::lemma_view_injective(accounts.escrow_token_account.key, accounts.sender.key);
        if let Some(held) = accounts.escrow_token_account.data {
            Pubkey::lemma_view_injective(held.mint, record.token_mint);
            Pubkey::lemma_view_injective(held.owner, accounts.escrow_account.key);
        }
        if let Some(destination) = accounts.sender_token_account.data {
            Pubkey::lemma_view_injective(destination.mint, record.token_mint);
            Pubkey::lemma_view_injective(destination.owner, record.sender);
        }
    }
}

/// A lock of tokens, redeemed right after its creation with a secret that
/// hashes to the commitment, pays exactly the locked amount into the
/// claimant's token account, which is created where it did not exist, and
/// leaves neither vault nor record. This holds wherever the claimant's token
/// account can be made ready and the vault is another place than the
/// submitter; the redemption is then refused only where a balance could not
/// hold what it is to receive.
pub proof fn lemma_initialize_then_redeem_spl(
    init: Context<InitializeTransferSPL>,
    amount: u64,
    expiration_time: i64,
    hash_of_secret: [u8; 32],
    redeem: Context<RedeemFundsSPL>,
    secret: Seq<u8>,
)
    requires
        initialize_transfer_spl_outcome(init, amount, expiration_time, hash_of_secret) is Ok,
        redeem.program_id == init.program_id,
        redeem.accounts.escrow_account == initialize_transfer_spl_outcome(
            init,
            amount,
            expiration_time,
            hash_of_secret,
        )->Ok_0.escrow_account,
        redeem.accounts.escrow_token_account == initialize_transfer_spl_outcome(
            init,
            amount,
            expiration_time,
            hash_of_secret,
        )->Ok_0.escrow_token_account,
        redeem.accounts.token_mint == init.accounts.token_mint,
        redeem.accounts.sender.key == init.accounts.sender.key,
        sha256_digest(secret) == hash_of_secret@,
        redeem.accounts.destination_ready(
            associated_token_address(
                redeem.accounts.recipient.key@,
                redeem.accounts.token_mint.key@,
                redeem.accounts.token_program@,
                redeem.accounts.associated_token_program@,
            ),
        ) is Ok,
        redeem.accounts.escrow_token_account.key@ != redeem.accounts.signer.key@,
    ensures
        match redeem_funds_spl_outcome(redeem, secret) {
            Ok(after) => {
                &&& after.recipient_token_account.key == redeem.accounts.recipient_token_account.key
                &&& after.recipient_token_account.data == Some(
                    TokenAccount {
                        mint: redeem.accounts.token_mint.key,
                        owner: redeem.accounts.recipient.key,
                        amount: (match redeem.accounts.recipient_token_account.data {
                            Some(before) => before.amount + amount,
                            None => amount as int,
                        }) as u64,
                    },
                )
                &&& match redeem.accounts.recipient_token_account.data {
                    Some(before) => before.amount + amount <= u64::MAX,
                    None => true,
                }
                &&& after.escrow_token_account.data is None
                &&& after.escrow_token_account.lamports == 0
                &&& after.escrow_account.data is None
                &&& after.escrow_account.lamports == 0
            },
            Err(e) => e == CustomError::BalanceOverflow,
        },
{
    lemma_initialize_spl_creates(init, amount, expiration_time, hash_of_secret);
    if let Some(before) = redeem.accounts.recipient_token_account.data {
        Pubkey::lemma_view_injective(before.mint, redeem.accounts.token_mint.key);
        Pubkey::lemma_view_injective(before.owner, redeem.accounts.recipient.key);
    }
}

/// A redemption of tokens with a secret that does not hash to the
/// commitment of the record is refused as an invalid secret, whatever else
/// holds of the record, and leaves every entry as it was.
pub proof fn lemma_wrong_secret_redeems_nothing_spl(
    ctx: Context<RedeemFundsSPL>,
    secret: Seq<u8>,
    after: RedeemFundsSPL,
    done: Result<(), CustomError>,
)
    requires
        ctx.accounts.escrow_account.data matches Some(record) && ctx.accounts.record(
            spl_record_address(ctx.program_id, record),
        ) is Ok && sha256_digest(secret) != record.hash_of_secret@,
        settled(ctx.accounts, after, done, redeem_funds_spl_outcome(ctx, secret)),
    ensures
        done == Err::<(), CustomError>(CustomError::InvalidSecret),
        after == ctx.accounts,
{
}

/// After a redemption of tokens has succeeded, no redemption of the record
/// it left succeeds: the record is not found, whoever asks and with
/// whatever secret.
pub proof fn lemma_no_second_redeem_spl(
    first: Context<RedeemFundsSPL>,
    first_secret: Seq<u8>,
    second: Context<RedeemFundsSPL>,
    second_secret: Seq<u8>,
)
    requires
        redeem_funds_spl_outcome(first, first_secret) is Ok,
        second.accounts.escrow_account == redeem_funds_spl_outcome(
            first,
            first_secret,
        )->Ok_0.escrow_account,
    ensures
        redeem_funds_spl_outcome(second, second_secret) == Err::<RedeemFundsSPL, CustomError>(
            CustomError::NotFound,
        ),
{
}

/// A record of tokens that is marked as redeemed is never redeemed again:
/// with the right secret the refusal says so.
pub proof fn lemma_redeemed_record_stays_redeemed_spl(ctx: Context<RedeemFundsSPL>, secret: Seq<u8>)
    requires
        ctx.accounts.escrow_account.data matches Some(record) && record.is_redeemed,
    ensures
        redeem_funds_spl_outcome(ctx, secret) is Err,
        ctx.accounts.escrow_account.data matches Some(record) && (ctx.accounts.record(
            spl_record_address(ctx.program_id, record),
        ) is Ok && sha256_digest(secret) == record.hash_of_secret@ ==> redeem_funds_spl_outcome(
            ctx,
            secret,
        ) == Err::<RedeemFundsSPL, CustomError>(CustomError::AlreadyRedeemed)),
{
}

/// A refund of tokens at or before the deadline is refused, whatever the
/// secret; with the secret of a record that is not redeemed, the refusal
/// says that the lock has not expired.
pub proof fn lemma_no_refund_before_deadline_spl(
    ctx: Context<RefundFundsSPL>,
    secret: Seq<u8>,
    unix_timestamp: i64,
)
    requires
        ctx.accounts.escrow_account.data matches Some(record) && unix_timestamp
            <= record.expiration_time,
    ensures
        refund_funds_spl_outcome(ctx, secret, unix_timestamp) is Err,
        ctx.accounts.escrow_account.data matches Some(record) && (ctx.accounts.record(
            spl_record_address(ctx.program_id, record),
        ) is Ok && sha256_digest(secret) == record.hash_of_secret@ && !record.is_redeemed
            ==> refund_funds_spl_outcome(ctx, secret, unix_timestamp) == Err::<
            RefundFundsSPL,
            CustomError,
        >(CustomError::NotExpired)),
{
}

/// A refund of tokens after the deadline, with the secret of a record that
/// is not redeemed and whose vault is as the lock left it, succeeds: the
/// holder's token account holds exactly the locked amount more, and the
/// vault and the record are destroyed. This holds wherever the holder's
/// token account is one of the record's token and the vault is another
/// place than the holder; the refund is then refused only where a balance
/// could not hold what it is to receive.
pub proof fn lemma_refund_after_deadline_spl(
    ctx: Context<RefundFundsSPL>,
    secret: Seq<u8>,
    unix_timestamp: i64,
)
    requires
        ctx.accounts.escrow_account.data matches Some(record) && ctx.accounts.record(
            spl_record_address(ctx.program_id, record),
        ) is Ok && sha256_digest(secret) == record.hash_of_secret@ && !record.is_redeemed
            && unix_timestamp > record.expiration_time,
        spl_vault_matches(ctx.accounts.escrow_account, ctx.accounts.escrow_token_account),
        ctx.accounts.sender_token_account.data matches Some(destination) && destination.mint
            == ctx.accounts.token_mint.key,
        ctx.accounts.escrow_token_account.key@ != ctx.accounts.sender.key@,
    ensures
        match refund_funds_spl_outcome(ctx, secret, unix_timestamp) {
            Ok(after) => {
                &&& after.sender_token_account.key == ctx.accounts.sender_token_account.key
                &&& after.sender_token_account.data == Some(
                    TokenAccount {
                        amount: (ctx.accounts.sender_token_account.data->Some_0.amount
                            + ctx.accounts.escrow_account.data->Some_0.amount) as u64,
                        ..ctx.accounts.sender_token_account.data->Some_0
                    },
                )
                &&& ctx.accounts.sender_token_account.data->Some_0.amount
                    + ctx.accounts.escrow_account.data->Some_0.amount <= u64::MAX
                &&& after.sender.lamports == ctx.accounts.sender.lamports
                    + ctx.accounts.escrow_token_account.lamports
                    + ctx.accounts.escrow_account.lamports
                &&& after.escrow_token_account.data is None
                &&& after.escrow_token_account.lamports == 0
                &&& after.escrow_account.data is None
                &&& after.escrow_account.lamports == 0
            },
            Err(e) => e == CustomError::BalanceOverflow,
        },
{
    let record = ctx.accounts.escrow_account.data->Some_0;
    Pubkey::lemma_view_injective(ctx.accounts.token_mint.key, record.token_mint);
}

/// Of a redemption and a refund that go for one record of tokens, the one
/// that comes second is refused, whichever comes first: it finds no record.
/// So the locked amount is paid once, to the claimant or to the holder, and
/// never to both.
pub proof fn lemma_redeem_excludes_refund_spl(
    redeem: Context<RedeemFundsSPL>,
    redeem_secret: Seq<u8>,
    refund: Context<RefundFundsSPL>,
    refund_secret: Seq<u8>,
    unix_timestamp: i64,
)
    requires
        redeem.accounts.escrow_account == refund.accounts.escrow_account,
    ensures
        match redeem_funds_spl_outcome(redeem, redeem_secret) {
            Ok(redeemed) => refund_funds_spl_outcome(
                Context {
                    accounts: RefundFundsSPL {
                        escrow_account: redeemed.escrow_account,
                        escrow_token_account: redeemed.escrow_token_account,
                        ..refund.accounts
                    },
                    ..refund
                },
                refund_secret,
                unix_timestamp,
            ) == Err::<RefundFundsSPL, CustomError>(CustomError::NotFound),
            Err(_) => true,
        },
        match refund_funds_spl_outcome(refund, refund_secret, unix_timestamp) {
            Ok(refunded) => redeem_funds_spl_outcome(
                Context {
                    accounts: RedeemFundsSPL {
                        escrow_account: refunded.escrow_account,
                        escrow_token_account: refunded.escrow_token_account,
                        ..redeem.accounts
                    },
                    ..redeem
                },
                redeem_secret,
            ) == Err::<RedeemFundsSPL, CustomError>(CustomError::NotFound),
            Err(_) => true,
        },
{
}

/// A redemption or a refund of tokens that succeeds destroys the record and
/// its vault: their entries hold neither data nor balance afterwards, and
/// their places are the same.
pub proof fn lemma_settlement_destroys_the_record_spl(
    redeem: Context<RedeemFundsSPL>,
    refund: Context<RefundFundsSPL>,
    secret: Seq<u8>,
    unix_timestamp: i64,
)
    ensures
        match redeem_funds_spl_outcome(redeem, secret) {
            Ok(after) => {
                &&& after.escrow_account == (Account::<EscrowAccount> {
                    key: redeem.accounts.escrow_account.key,
                    lamports: 0,
                    data: None,
                })
                &&& after.escrow_token_account == (Account::<TokenAccount> {
                    key: redeem.accounts.escrow_token_account.key,
                    lamports: 0,
                    data: None,
                })
            },
            Err(_) => true,
        },
        match refund_funds_spl_outcome(refund, secret, unix_timestamp) {
            Ok(after) => {
                &&& after.escrow_account == (Account::<EscrowAccount> {
                    key: refund.accounts.escrow_account.key,
                    lamports: 0,
                    data: None,
                })
                &&& after.escrow_token_account == (Account::<TokenAccount> {
                    key: refund.accounts.escrow_token_account.key,
                    lamports: 0,
                    data: None,
                })
            },
            Err(_) => true,
        },
{
}

/// No operation on a lock of tokens makes or loses value: the tokens that
/// the token accounts hold together, and the native balance that the
/// entries hold together, are the same before and after a creation, a
/// redemption and a refund.
pub proof fn lemma_tokens_are_conserved(
    init: Context<InitializeTransferSPL>,
    amount: u64,
    expiration_time: i64,
    hash_of_secret: [u8; 32],
    redeem: Context<RedeemFundsSPL>,
    refund: Context<RefundFundsSPL>,
    secret: Seq<u8>,
    unix_timestamp: i64,
)
    ensures
        match initialize_transfer_spl_outcome(init, amount, expiration_time, hash_of_secret) {
            Ok(after) => {
                &&& tokens_held(after.sender_token_account) + tokens_held(
                    after.escrow_token_account,
                ) == tokens_held(init.accounts.sender_token_account) + tokens_held(
                    init.accounts.escrow_token_account,
                )
                &&& after.sender.lamports + after.escrow_account.lamports
                    + after.escrow_token_account.lamports + after.sender_token_account.lamports
                    == init.accounts.sender.lamports + init.accounts.escrow_account.lamports
                    + init.accounts.escrow_token_account.lamports
                    + init.accounts.sender_token_account.lamports
            },
            Err(_) => true,
        },
        match redeem_funds_spl_outcome(redeem, secret) {
            Ok(after) => {
                &&& tokens_held(after.recipient_token_account) + tokens_held(
                    after.escrow_token_account,
                ) == tokens_held(redeem.accounts.recipient_token_account) + tokens_held(
                    redeem.accounts.escrow_token_account,
                )
                &&& after.signer.lamports + after.recipient.lamports + after.sender.lamports
                    + after.escrow_account.lamports + after.escrow_token_account.lamports
                    + after.recipient_token_account.lamports == redeem.accounts.signer.lamports
                    + redeem.accounts.recipient.lamports + redeem.accounts.sender.lamports
                    + redeem.accounts.escrow_account.lamports
                    + redeem.accounts.escrow_token_account.lamports
                    + redeem.accounts.recipient_token_account.lamports
            },
            Err(_) => true,
        },
        match refund_funds_spl_outcome(refund, secret, unix_timestamp) {
            Ok(after) => {
                &&& tokens_held(after.sender_token_account) + tokens_held(
                    after.escrow_token_account,
                ) == tokens_held(refund.accounts.sender_token_account) + tokens_held(
                    refund.accounts.escrow_token_account,
                )
                &&& after.signer.lamports + after.sender.lamports
                    + after.escrow_account.lamports + after.escrow_token_account.lamports
                    + after.sender_token_account.lamports == refund.accounts.signer.lamports
                    + refund.accounts.sender.lamports + refund.accounts.escrow_account.lamports
                    + refund.accounts.escrow_token_account.lamports
                    + refund.accounts.sender_token_account.lamports
            },
            Err(_) => true,
        },
{
}

} // verus!
