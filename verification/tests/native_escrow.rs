use instant_send_program::commitment::commit;
use instant_send_program::derivation::derive_vault_authority;
use instant_send_program::instructions::{
    initialize_transfer_sol, redeem_funds_sol, refund_funds_sol, InitializeTransferSOL,
    RedeemFundsSOL, RefundFundsSOL,
};
use instant_send_program::native::{
    lock, move_balance, open_account, release, teardown, Transfer,
};
use instant_send_program::{
    Account, Context, CustomError, EscrowSOLAccount, Pubkey, Rent, SystemAccount, SEED_ESCROW_SOL,
};

const T: i64 = 1_700_000_000;
const RENT: Rent = Rent { escrow_account: 1_500_000, token_account: 2_039_280 };

fn key(tag: u8) -> Pubkey {
    Pubkey::new_from_array([tag; 32])
}

fn program() -> Pubkey {
    key(9)
}

fn holder(lamports: u64) -> SystemAccount {
    SystemAccount { key: key(1), lamports }
}

fn claimant(lamports: u64) -> SystemAccount {
    SystemAccount { key: key(2), lamports }
}

fn submitter(lamports: u64) -> SystemAccount {
    SystemAccount { key: key(3), lamports }
}

fn record_place(secret: &[u8]) -> (Pubkey, u8) {
    derive_vault_authority(&program(), &SEED_ESCROW_SOL, &commit(secret)).unwrap()
}

fn empty_place(secret: &[u8]) -> Account<EscrowSOLAccount> {
    Account { key: record_place(secret).0, lamports: 0, data: None }
}

fn opening(sender_lamports: u64) -> Context<InitializeTransferSOL> {
    Context {
        program_id: program(),
        accounts: InitializeTransferSOL {
            sender: holder(sender_lamports),
            escrow_account: empty_place(b"swordfish"),
            rent: RENT,
        },
    }
}

fn locked_record() -> Account<EscrowSOLAccount> {
    let mut ctx = opening(10_000_000);
    assert_eq!(initialize_transfer_sol(&mut ctx, 1000, T, commit(b"swordfish")), Ok(()));
    ctx.accounts.escrow_account
}

fn redeeming(record: Account<EscrowSOLAccount>) -> Context<RedeemFundsSOL> {
    Context {
        program_id: program(),
        accounts: RedeemFundsSOL {
            signer: submitter(50),
            recipient: claimant(5),
            escrow_account: record,
            sender: holder(7),
        },
    }
}

fn refunding(record: Account<EscrowSOLAccount>) -> Context<RefundFundsSOL> {
    Context {
        program_id: program(),
        accounts: RefundFundsSOL { signer: submitter(50), escrow_account: record, sender: holder(7) },
    }
}

#[test]
fn initialize_sol_writes_the_record_and_funds_the_vault() {
    let mut ctx = opening(10_000_000);
    assert_eq!(initialize_transfer_sol(&mut ctx, 1000, T, commit(b"swordfish")), Ok(()));
    let (address, bump) = record_place(b"swordfish");
    assert_eq!(ctx.program_id, program());
    assert_eq!(ctx.accounts.sender, holder(10_000_000 - 1_500_000 - 1000));
    assert_eq!(
        ctx.accounts.escrow_account,
        Account {
            key: address,
            lamports: 1_501_000,
            data: Some(EscrowSOLAccount {
                sender: key(1),
                amount: 1000,
                expiration_time: T,
                is_redeemed: false,
                hash_of_secret: commit(b"swordfish"),
                bump,
            }),
        }
    );
    assert_eq!(ctx.accounts.rent, RENT);
}

#[test]
fn initialize_sol_tops_up_a_place_that_holds_balance_already() {
    let mut ctx = opening(10_000_000);
    ctx.accounts.escrow_account.lamports = 400_000;
    assert_eq!(initialize_transfer_sol(&mut ctx, 1000, T, commit(b"swordfish")), Ok(()));
    assert_eq!(ctx.accounts.sender.lamports, 10_000_000 - 1_100_000 - 1000);
    assert_eq!(ctx.accounts.escrow_account.lamports, 1_501_000);

    let mut rich = opening(10_000_000);
    rich.accounts.escrow_account.lamports = 2_000_000;
    assert_eq!(initialize_transfer_sol(&mut rich, 1000, T, commit(b"swordfish")), Ok(()));
    assert_eq!(rich.accounts.sender.lamports, 10_000_000 - 1000);
    assert_eq!(rich.accounts.escrow_account.lamports, 2_001_000);
}

#[test]
fn initialize_sol_twice_is_a_creation_conflict() {
    let mut ctx = opening(10_000_000);
    assert_eq!(initialize_transfer_sol(&mut ctx, 1000, T, commit(b"swordfish")), Ok(()));
    let before = ctx;
    assert_eq!(
        initialize_transfer_sol(&mut ctx, 2000, T + 5, commit(b"swordfish")),
        Err(CustomError::CreationConflict)
    );
    assert_eq!(ctx, before);
}

#[test]
fn initialize_sol_needs_the_storage_cost_and_the_amount() {
    let mut poor = opening(1_499_999);
    let before = poor;
    assert_eq!(
        initialize_transfer_sol(&mut poor, 0, T, commit(b"swordfish")),
        Err(CustomError::InsufficientFunds)
    );
    assert_eq!(poor, before);

    let mut short = opening(1_500_999);
    let before = short;
    assert_eq!(
        initialize_transfer_sol(&mut short, 1000, T, commit(b"swordfish")),
        Err(CustomError::InsufficientFunds)
    );
    assert_eq!(short, before);

    let mut exact = opening(1_501_000);
    assert_eq!(initialize_transfer_sol(&mut exact, 1000, T, commit(b"swordfish")), Ok(()));
    assert_eq!(exact.accounts.sender.lamports, 0);
    assert_eq!(exact.accounts.escrow_account.lamports, 1_501_000);
}

#[test]
fn initialize_sol_refuses_another_place_than_the_derived_one() {
    let mut ctx = opening(10_000_000);
    ctx.accounts.escrow_account.key = key(77);
    let before = ctx;
    assert_eq!(
        initialize_transfer_sol(&mut ctx, 1000, T, commit(b"swordfish")),
        Err(CustomError::AddressMismatch)
    );
    assert_eq!(ctx, before);

    let mut other = opening(10_000_000);
    assert_eq!(
        initialize_transfer_sol(&mut other, 1000, T, commit(b"wrong")),
        Err(CustomError::AddressMismatch)
    );
}

#[test]
fn initialize_sol_refuses_a_vault_that_cannot_hold_the_amount() {
    let mut ctx = opening(u64::MAX);
    ctx.accounts.escrow_account.lamports = u64::MAX - 10;
    let before = ctx;
    assert_eq!(
        initialize_transfer_sol(&mut ctx, 11, T, commit(b"swordfish")),
        Err(CustomError::BalanceOverflow)
    );
    assert_eq!(ctx, before);
    assert_eq!(initialize_transfer_sol(&mut ctx, 10, T, commit(b"swordfish")), Ok(()));
    assert_eq!(ctx.accounts.escrow_account.lamports, u64::MAX);
}

#[test]
fn initialize_with_a_given_derivation() {
    let mut accounts = opening(10_000_000).accounts;
    accounts.escrow_account.key = key(40);
    assert_eq!(
        accounts.initialize(None, 1000, T, commit(b"swordfish")),
        Err(CustomError::AddressMismatch)
    );
    assert_eq!(
        accounts.initialize(Some((key(41), 255)), 1000, T, commit(b"swordfish")),
        Err(CustomError::AddressMismatch)
    );
    assert_eq!(accounts.initialize(Some((key(40), 250)), 1000, T, [6u8; 32]), Ok(()));
    let record = accounts.escrow_account.data.unwrap();
    assert_eq!(record.bump, 250);
    assert_eq!(record.hash_of_secret, [6u8; 32]);
    assert_eq!(record.sender, key(1));
    assert!(!record.is_redeemed);
}

#[test]
fn into_transfer_sol_context_names_holder_and_vault() {
    let ctx = opening(1);
    assert_eq!(
        ctx.accounts.into_transfer_sol_context(),
        Transfer { from: key(1), to: record_place(b"swordfish").0 }
    );
}

#[test]
fn redeem_before_the_deadline_pays_the_claimant_and_refund_then_finds_nothing() {
    let record = locked_record();
    let mut redeem = redeeming(record);
    assert_eq!(redeem_funds_sol(&mut redeem, String::from("swordfish")), Ok(()));
    assert_eq!(redeem.accounts.recipient, claimant(5 + 1000));
    assert_eq!(redeem.accounts.sender, holder(7 + 1_500_000));
    assert_eq!(redeem.accounts.signer, submitter(50));
    assert_eq!(
        redeem.accounts.escrow_account,
        Account { key: record.key, lamports: 0, data: None }
    );

    let mut refund = refunding(redeem.accounts.escrow_account);
    let before = refund;
    assert_eq!(
        refund_funds_sol(&mut refund, String::from("swordfish"), T + 1),
        Err(CustomError::NotFound)
    );
    assert_eq!(refund, before);
}

#[test]
fn refund_with_a_wrong_secret_changes_nothing_and_redeem_still_succeeds() {
    let record = locked_record();
    let mut refund = refunding(record);
    let before = refund;
    assert_eq!(
        refund_funds_sol(&mut refund, String::from("wrong"), T + 1),
        Err(CustomError::InvalidSecret)
    );
    assert_eq!(refund, before);
    assert!(refund.accounts.escrow_account.data.is_some());

    let mut redeem = redeeming(refund.accounts.escrow_account);
    assert_eq!(redeem_funds_sol(&mut redeem, String::from("swordfish")), Ok(()));
    assert_eq!(redeem.accounts.recipient.lamports, 1005);
    assert_eq!(redeem.accounts.escrow_account.data, None);
}

#[test]
fn redeem_sol_with_a_wrong_secret_is_refused_and_changes_nothing() {
    let mut redeem = redeeming(locked_record());
    let before = redeem;
    for secret in ["wrong", "", "swordfis", "swordfish\n", "SWORDFISH"] {
        assert_eq!(
            redeem_funds_sol(&mut redeem, String::from(secret)),
            Err(CustomError::InvalidSecret)
        );
        assert_eq!(redeem, before);
    }
}

#[test]
fn redeem_sol_twice_finds_no_record_the_second_time() {
    let mut redeem = redeeming(locked_record());
    assert_eq!(redeem_funds_sol(&mut redeem, String::from("swordfish")), Ok(()));
    let before = redeem;
    assert_eq!(
        redeem_funds_sol(&mut redeem, String::from("swordfish")),
        Err(CustomError::NotFound)
    );
    assert_eq!(redeem, before);
}

#[test]
fn redeem_sol_of_a_record_marked_redeemed_is_refused() {
    let mut record = locked_record();
    record.data = Some(EscrowSOLAccount { is_redeemed: true, ..record.data.unwrap() });
    let mut redeem = redeeming(record);
    let before = redeem;
    assert_eq!(
        redeem_funds_sol(&mut redeem, String::from("swordfish")),
        Err(CustomError::AlreadyRedeemed)
    );
    assert_eq!(redeem, before);
    assert_eq!(
        redeem_funds_sol(&mut redeem, String::from("wrong")),
        Err(CustomError::InvalidSecret)
    );

    let mut refund = refunding(record);
    assert_eq!(
        refund_funds_sol(&mut refund, String::from("swordfish"), T + 1),
        Err(CustomError::AlreadyRedeemed)
    );
}

#[test]
fn redeem_sol_is_allowed_after_the_deadline() {
    let mut redeem = redeeming(locked_record());
    assert_eq!(redeem_funds_sol(&mut redeem, String::from("swordfish")), Ok(()));
    assert_eq!(redeem.accounts.recipient.lamports, 1005);
}

#[test]
fn redeem_sol_checks_that_the_entries_belong_together() {
    let record = locked_record();

    let mut strange_holder = redeeming(record);
    strange_holder.accounts.sender.key = key(8);
    assert_eq!(
        redeem_funds_sol(&mut strange_holder, String::from("swordfish")),
        Err(CustomError::AddressMismatch)
    );

    let mut moved = redeeming(record);
    moved.accounts.escrow_account.key = key(8);
    assert_eq!(
        redeem_funds_sol(&mut moved, String::from("swordfish")),
        Err(CustomError::AddressMismatch)
    );

    let mut other_program = redeeming(record);
    other_program.program_id = key(10);
    assert_eq!(
        redeem_funds_sol(&mut other_program, String::from("swordfish")),
        Err(CustomError::AddressMismatch)
    );

    let mut other_bump = redeeming(record);
    let stored = record.data.unwrap();
    other_bump.accounts.escrow_account.data =
        Some(EscrowSOLAccount { bump: stored.bump.wrapping_sub(1), ..stored });
    assert_eq!(
        redeem_funds_sol(&mut other_bump, String::from("swordfish")),
        Err(CustomError::AddressMismatch)
    );

    let mut absent = redeeming(empty_place(b"swordfish"));
    assert_eq!(
        redeem_funds_sol(&mut absent, String::from("swordfish")),
        Err(CustomError::NotFound)
    );
}

#[test]
fn redeem_sol_fails_whole_where_a_balance_cannot_move() {
    let record = locked_record();

    let mut full = redeeming(record);
    full.accounts.recipient.lamports = u64::MAX - 999;
    let before = full;
    assert_eq!(
        redeem_funds_sol(&mut full, String::from("swordfish")),
        Err(CustomError::BalanceOverflow)
    );
    assert_eq!(full, before);

    let mut full_holder = redeeming(record);
    full_holder.accounts.sender.lamports = u64::MAX - 1_499_999;
    let before = full_holder;
    assert_eq!(
        redeem_funds_sol(&mut full_holder, String::from("swordfish")),
        Err(CustomError::BalanceOverflow)
    );
    assert_eq!(full_holder, before);

    let mut drained = redeeming(record);
    drained.accounts.escrow_account.lamports = 999;
    let before = drained;
    assert_eq!(
        redeem_funds_sol(&mut drained, String::from("swordfish")),
        Err(CustomError::InsufficientFunds)
    );
    assert_eq!(drained, before);
}

#[test]
fn redeem_with_a_given_address_and_digest() {
    let record = locked_record();
    let mut accounts = redeeming(record).accounts;
    let before = accounts;
    assert_eq!(accounts.redeem(None, &commit(b"swordfish")), Err(CustomError::AddressMismatch));
    assert_eq!(
        accounts.redeem(Some(key(8)), &commit(b"swordfish")),
        Err(CustomError::AddressMismatch)
    );
    assert_eq!(
        accounts.redeem(Some(record.key), &commit(b"wrong")),
        Err(CustomError::InvalidSecret)
    );
    assert_eq!(accounts, before);
    assert_eq!(accounts.redeem(Some(record.key), &commit(b"swordfish")), Ok(()));
    assert_eq!(accounts.recipient.lamports, 1005);
    assert_eq!(accounts.escrow_account.lamports, 0);
}

#[test]
fn verify_secret_sol_compares_the_hash_with_the_commitment() {
    let redeem = redeeming(locked_record()).accounts;
    assert_eq!(redeem.verify_secret("swordfish"), Ok(()));
    assert_eq!(redeem.verify_secret("wrong"), Err(CustomError::InvalidSecret));
    assert_eq!(redeem.verify_digest(&commit(b"swordfish")), Ok(()));
    assert_eq!(redeem.verify_digest(&[0u8; 32]), Err(CustomError::InvalidSecret));
    let refund = refunding(locked_record()).accounts;
    assert_eq!(refund.verify_secret("swordfish"), Ok(()));
    assert_eq!(refund.verify_secret("wrong"), Err(CustomError::InvalidSecret));
    assert_eq!(refund.verify_digest(&commit(b"wrong")), Err(CustomError::InvalidSecret));
    let absent = redeeming(empty_place(b"swordfish")).accounts;
    assert_eq!(absent.verify_secret("swordfish"), Err(CustomError::NotFound));
    let gone = refunding(empty_place(b"swordfish")).accounts;
    assert_eq!(gone.verify_secret("swordfish"), Err(CustomError::NotFound));
}

#[test]
fn transfer_sol_to_recipient_moves_exactly_the_amount() {
    let mut accounts = redeeming(locked_record()).accounts;
    assert_eq!(accounts.transfer_sol_to_recipient(1000), Ok(()));
    assert_eq!(accounts.recipient.lamports, 1005);
    assert_eq!(accounts.escrow_account.lamports, 1_500_000);
    assert!(accounts.escrow_account.data.is_some());
    let before = accounts;
    assert_eq!(accounts.transfer_sol_to_recipient(1_500_001), Err(CustomError::InsufficientFunds));
    assert_eq!(accounts, before);
}

#[test]
fn transfer_sol_back_to_sender_moves_exactly_the_amount() {
    let mut accounts = refunding(locked_record()).accounts;
    assert_eq!(accounts.transfer_sol_back_to_sender(1000), Ok(()));
    assert_eq!(accounts.sender.lamports, 1007);
    assert_eq!(accounts.escrow_account.lamports, 1_500_000);
    accounts.sender.lamports = u64::MAX;
    let before = accounts;
    assert_eq!(accounts.transfer_sol_back_to_sender(1), Err(CustomError::BalanceOverflow));
    assert_eq!(accounts, before);
}

#[test]
fn refund_sol_is_refused_until_the_deadline_has_passed() {
    let record = locked_record();
    for now in [i64::MIN, 0, T - 1, T] {
        let mut refund = refunding(record);
        let before = refund;
        assert_eq!(
            refund_funds_sol(&mut refund, String::from("swordfish"), now),
            Err(CustomError::NotExpired)
        );
        assert_eq!(refund, before);
    }
    let mut early_and_wrong = refunding(record);
    assert_eq!(
        refund_funds_sol(&mut early_and_wrong, String::from("wrong"), T - 1),
        Err(CustomError::InvalidSecret)
    );
}

#[test]
fn refund_sol_after_the_deadline_returns_the_amount_to_the_holder() {
    let record = locked_record();
    let mut refund = refunding(record);
    assert_eq!(refund_funds_sol(&mut refund, String::from("swordfish"), T + 1), Ok(()));
    assert_eq!(refund.accounts.sender, holder(7 + 1000 + 1_500_000));
    assert_eq!(refund.accounts.signer, submitter(50));
    assert_eq!(
        refund.accounts.escrow_account,
        Account { key: record.key, lamports: 0, data: None }
    );

    let mut late = refunding(record);
    assert_eq!(refund_funds_sol(&mut late, String::from("swordfish"), i64::MAX), Ok(()));

    let mut redeem = redeeming(refund.accounts.escrow_account);
    assert_eq!(
        redeem_funds_sol(&mut redeem, String::from("swordfish")),
        Err(CustomError::NotFound)
    );
}

#[test]
fn refund_with_a_given_address_and_digest() {
    let record = locked_record();
    let mut accounts = refunding(record).accounts;
    let before = accounts;
    let digest = commit(b"swordfish");
    assert_eq!(accounts.refund(None, &digest, T + 1), Err(CustomError::AddressMismatch));
    assert_eq!(accounts.refund(Some(record.key), &[1u8; 32], T + 1), Err(CustomError::InvalidSecret));
    assert_eq!(accounts.refund(Some(record.key), &digest, T), Err(CustomError::NotExpired));
    assert_eq!(accounts, before);
    let mut strange = accounts;
    strange.sender.key = key(8);
    assert_eq!(strange.refund(Some(record.key), &digest, T + 1), Err(CustomError::AddressMismatch));
    assert_eq!(accounts.refund(Some(record.key), &digest, T + 1), Ok(()));
    assert_eq!(accounts.sender.lamports, 7 + 1_501_000);
}

#[test]
fn whichever_of_redeem_and_refund_comes_first_wins() {
    let record = locked_record();

    let mut redeem = redeeming(record);
    let mut refund = refunding(record);
    assert_eq!(redeem_funds_sol(&mut redeem, String::from("swordfish")), Ok(()));
    refund.accounts.escrow_account = redeem.accounts.escrow_account;
    assert_eq!(
        refund_funds_sol(&mut refund, String::from("swordfish"), T + 1),
        Err(CustomError::NotFound)
    );
    assert_eq!(redeem.accounts.recipient.lamports - 5, 1000);
    assert_eq!(refund.accounts.sender.lamports, 7);

    let mut redeem = redeeming(record);
    let mut refund = refunding(record);
    assert_eq!(refund_funds_sol(&mut refund, String::from("swordfish"), T + 1), Ok(()));
    redeem.accounts.escrow_account = refund.accounts.escrow_account;
    assert_eq!(
        redeem_funds_sol(&mut redeem, String::from("swordfish")),
        Err(CustomError::NotFound)
    );
    assert_eq!(redeem.accounts.recipient.lamports, 5);
    assert_eq!(refund.accounts.sender.lamports - 7, 1000 + 1_500_000);
}

#[test]
fn move_balance_is_checked_both_ways() {
    let (mut from, mut to) = (10u64, 20u64);
    assert_eq!(move_balance(&mut from, &mut to, 10), Ok(()));
    assert_eq!((from, to), (0, 30));
    assert_eq!(move_balance(&mut from, &mut to, 1), Err(CustomError::InsufficientFunds));
    assert_eq!((from, to), (0, 30));
    let (mut from, mut to) = (10u64, u64::MAX - 9);
    assert_eq!(move_balance(&mut from, &mut to, 10), Err(CustomError::BalanceOverflow));
    assert_eq!((from, to), (10, u64::MAX - 9));
    assert_eq!(move_balance(&mut from, &mut to, 9), Ok(()));
    assert_eq!((from, to), (1, u64::MAX));
    assert_eq!(move_balance(&mut from, &mut to, 0), Ok(()));
}

#[test]
fn lock_release_and_teardown_move_native_balance() {
    let mut payer = holder(100);
    let mut vault: Account<EscrowSOLAccount> = Account { key: key(5), lamports: 1, data: None };
    assert_eq!(lock(60, &mut payer, &mut vault), Ok(()));
    assert_eq!((payer.lamports, vault.lamports), (40, 61));
    assert_eq!(lock(41, &mut payer, &mut vault), Err(CustomError::InsufficientFunds));
    let mut destination = claimant(0);
    assert_eq!(release(61, &mut vault, &mut destination), Ok(()));
    assert_eq!((vault.lamports, destination.lamports), (0, 61));
    assert_eq!(release(1, &mut vault, &mut destination), Err(CustomError::InsufficientFunds));

    let mut entry = locked_record();
    let mut refund_to = holder(3);
    assert_eq!(teardown(&mut entry, &mut refund_to), Ok(()));
    assert_eq!(entry.lamports, 0);
    assert_eq!(entry.data, None);
    assert_eq!(refund_to.lamports, 3 + 1_501_000);

    let mut entry = locked_record();
    let mut full = holder(u64::MAX - 1_500_999);
    let before = entry;
    assert_eq!(teardown(&mut entry, &mut full), Err(CustomError::BalanceOverflow));
    assert_eq!(entry, before);
    assert_eq!(full.lamports, u64::MAX - 1_500_999);
}

#[test]
fn open_account_funds_what_is_missing() {
    let mut payer = holder(100);
    let mut slot: Account<u8> = Account { key: key(5), lamports: 0, data: None };
    assert_eq!(open_account(&mut payer, &mut slot, 30, 7), Ok(()));
    assert_eq!((payer.lamports, slot.lamports, slot.data), (70, 30, Some(7)));
    assert!(slot.is_initialized());
    assert_eq!(open_account(&mut payer, &mut slot, 30, 8), Err(CustomError::CreationConflict));
    assert_eq!((payer.lamports, slot.lamports, slot.data), (70, 30, Some(7)));

    let mut partly: Account<u8> = Account { key: key(5), lamports: 10, data: None };
    assert!(!partly.is_initialized());
    assert_eq!(open_account(&mut payer, &mut partly, 90, 1), Err(CustomError::InsufficientFunds));
    assert_eq!(open_account(&mut payer, &mut partly, 80, 1), Ok(()));
    assert_eq!((payer.lamports, partly.lamports), (0, 80));

    let mut funded: Account<u8> = Account { key: key(5), lamports: 500, data: None };
    assert_eq!(open_account(&mut payer, &mut funded, 80, 1), Ok(()));
    assert_eq!((payer.lamports, funded.lamports), (0, 500));
}

#[test]
fn every_amount_and_deadline_locks_and_redeems_in_full() {
    let amounts = [0u64, 1, 1000, 4_000_000_000, u64::MAX / 2, u64::MAX - 1_500_000];
    let deadlines = [i64::MIN, -1, 0, T, i64::MAX];
    for amount in amounts {
        for deadline in deadlines {
            let mut init = Context {
                program_id: program(),
                accounts: InitializeTransferSOL {
                    sender: holder(u64::MAX),
                    escrow_account: empty_place(b"swordfish"),
                    rent: RENT,
                },
            };
            assert_eq!(
                initialize_transfer_sol(&mut init, amount, deadline, commit(b"swordfish")),
                Ok(())
            );
            assert_eq!(init.accounts.sender.lamports, u64::MAX - 1_500_000 - amount);
            assert_eq!(init.accounts.escrow_account.lamports, 1_500_000 + amount);

            let mut redeem = Context {
                program_id: program(),
                accounts: RedeemFundsSOL {
                    signer: submitter(0),
                    recipient: claimant(0),
                    escrow_account: init.accounts.escrow_account,
                    sender: holder(0),
                },
            };
            assert_eq!(redeem_funds_sol(&mut redeem, String::from("swordfish")), Ok(()));
            assert_eq!(redeem.accounts.recipient.lamports, amount);
            assert_eq!(redeem.accounts.sender.lamports, 1_500_000);
            assert_eq!(redeem.accounts.escrow_account.lamports, 0);
            assert_eq!(redeem.accounts.escrow_account.data, None);

            let mut refund = Context {
                program_id: program(),
                accounts: RefundFundsSOL {
                    signer: submitter(0),
                    escrow_account: init.accounts.escrow_account,
                    sender: holder(0),
                },
            };
            let done = refund_funds_sol(&mut refund, String::from("swordfish"), T);
            if T > deadline {
                assert_eq!(done, Ok(()));
                assert_eq!(refund.accounts.sender.lamports, 1_500_000 + amount);
                assert_eq!(refund.accounts.escrow_account.data, None);
            } else {
                assert_eq!(done, Err(CustomError::NotExpired));
                assert_eq!(refund.accounts.escrow_account, init.accounts.escrow_account);
            }
        }
    }
}

#[test]
fn secrets_of_any_bytes_open_their_own_lock_only() {
    for secret in ["", "a", "swordfish", "pässwörd ✓", "a much longer secret that runs over one block of the hash function, and then some"] {
        let (address, _) =
            derive_vault_authority(&program(), &SEED_ESCROW_SOL, &commit(secret.as_bytes()))
                .unwrap();
        let mut init = Context {
            program_id: program(),
            accounts: InitializeTransferSOL {
                sender: holder(10_000_000),
                escrow_account: Account { key: address, lamports: 0, data: None },
                rent: RENT,
            },
        };
        assert_eq!(
            initialize_transfer_sol(&mut init, 1000, T, commit(secret.as_bytes())),
            Ok(())
        );
        let mut other = redeeming(init.accounts.escrow_account);
        assert_eq!(
            redeem_funds_sol(&mut other, format!("{}x", secret)),
            Err(CustomError::InvalidSecret)
        );
        let mut redeem = redeeming(init.accounts.escrow_account);
        assert_eq!(redeem_funds_sol(&mut redeem, String::from(secret)), Ok(()));
        assert_eq!(redeem.accounts.recipient.lamports, 1005);
    }
}
