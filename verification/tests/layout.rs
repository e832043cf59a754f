use anchor_lang::AnchorSerialize;
use instant_send_program::{EscrowAccount, EscrowSOLAccount, Pubkey};

fn key(tag: u8) -> Pubkey {
    Pubkey::new_from_array([tag; 32])
}

fn native_record() -> EscrowSOLAccount {
    EscrowSOLAccount {
        sender: key(1),
        amount: 0x0102_0304_0506_0708,
        expiration_time: -2,
        is_redeemed: true,
        hash_of_secret: [0xAB; 32],
        bump: 254,
    }
}

fn token_record() -> EscrowAccount {
    EscrowAccount {
        sender: key(1),
        amount: 1000,
        expiration_time: 1_700_000_000,
        is_redeemed: false,
        token_mint: key(4),
        hash_of_secret: [0xCD; 32],
        bump: 7,
    }
}

#[test]
fn native_record_is_stored_field_by_field() {
    let bytes = native_record().to_bytes();
    assert_eq!(bytes.len(), 82);
    assert_eq!(&bytes[0..32], &[1u8; 32]);
    assert_eq!(&bytes[32..40], &[8, 7, 6, 5, 4, 3, 2, 1]);
    assert_eq!(&bytes[40..48], &[0xFE, 0xFF, 0xFF, 0xFF, 0xFF, 0xFF, 0xFF, 0xFF]);
    assert_eq!(bytes[48], 1);
    assert_eq!(&bytes[49..81], &[0xAB; 32]);
    assert_eq!(bytes[81], 254);
}

#[test]
fn token_record_is_stored_field_by_field() {
    let bytes = token_record().to_bytes();
    assert_eq!(bytes.len(), 114);
    assert_eq!(&bytes[0..32], &[1u8; 32]);
    assert_eq!(&bytes[32..40], &1000u64.to_le_bytes());
    assert_eq!(&bytes[40..48], &1_700_000_000i64.to_le_bytes());
    assert_eq!(bytes[48], 0);
    assert_eq!(&bytes[49..81], &[4u8; 32]);
    assert_eq!(&bytes[81..113], &[0xCD; 32]);
    assert_eq!(bytes[113], 7);
}

#[test]
fn stored_records_are_what_the_ledger_serialises() {
    let native = native_record();
    let expected = (
        native.sender.to_bytes(),
        native.amount,
        native.expiration_time,
        native.is_redeemed,
        native.hash_of_secret,
        native.bump,
    )
        .try_to_vec()
        .unwrap();
    assert_eq!(native.to_bytes(), expected);

    let token = token_record();
    let expected = (
        token.sender.to_bytes(),
        token.amount,
        token.expiration_time,
        token.is_redeemed,
        token.token_mint.to_bytes(),
        token.hash_of_secret,
        token.bump,
    )
        .try_to_vec()
        .unwrap();
    assert_eq!(token.to_bytes(), expected);
}

#[test]
fn stored_records_read_back_as_they_were() {
    let native = native_record();
    assert_eq!(EscrowSOLAccount::try_from_slice(&native.to_bytes()), Some(native));
    let extreme = EscrowSOLAccount {
        amount: u64::MAX,
        expiration_time: i64::MIN,
        is_redeemed: false,
        ..native
    };
    assert_eq!(EscrowSOLAccount::try_from_slice(&extreme.to_bytes()), Some(extreme));
    let latest = EscrowSOLAccount { amount: 0, expiration_time: i64::MAX, ..native };
    assert_eq!(EscrowSOLAccount::try_from_slice(&latest.to_bytes()), Some(latest));

    let token = token_record();
    assert_eq!(EscrowAccount::try_from_slice(&token.to_bytes()), Some(token));
    let redeemed = EscrowAccount { is_redeemed: true, expiration_time: -1, ..token };
    assert_eq!(EscrowAccount::try_from_slice(&redeemed.to_bytes()), Some(redeemed));
}

#[test]
fn bytes_that_store_no_record_are_refused() {
    let mut bytes = native_record().to_bytes();
    bytes[48] = 2;
    assert_eq!(EscrowSOLAccount::try_from_slice(&bytes), None);
    bytes[48] = 0;
    assert!(EscrowSOLAccount::try_from_slice(&bytes).is_some());
    assert_eq!(EscrowSOLAccount::try_from_slice(&bytes[..81]), None);
    bytes.push(0);
    assert_eq!(EscrowSOLAccount::try_from_slice(&bytes), None);
    assert_eq!(EscrowSOLAccount::try_from_slice(&[]), None);

    let mut bytes = token_record().to_bytes();
    assert_eq!(EscrowSOLAccount::try_from_slice(&bytes), None);
    bytes[48] = 255;
    assert_eq!(EscrowAccount::try_from_slice(&bytes), None);
    bytes[48] = 1;
    assert!(EscrowAccount::try_from_slice(&bytes).unwrap().is_redeemed);
    assert_eq!(EscrowAccount::try_from_slice(&bytes[1..]), None);
    assert_eq!(EscrowAccount::try_from_slice(&native_record().to_bytes()), None);
}
