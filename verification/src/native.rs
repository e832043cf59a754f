use vstd::prelude::*;
use crate::accounts::{Account, SystemAccount};
use crate::error::{settled, CustomError};
use crate::pubkey::Pubkey;

verus! {

/// The two ends of a transfer of native balance.
#[derive(Clone, Copy, Debug, PartialEq, Eq)]
pub struct Transfer {
    pub from: Pubkey,
    pub to: Pubkey,
}

/// The two balances after `amount` has gone from the first to the second:
/// refused where the first holds less, or the second cannot hold more.
pub open spec fn moved(from: u64, to: u64, amount: u64) -> Result<(u64, u64), CustomError> {
    if from < amount {
        Err(CustomError::InsufficientFunds)
    } else if to + amount > u64::MAX {
        Err(CustomError::BalanceOverflow)
    } else {
        Ok(((from - amount) as u64, (to + amount) as u64))
    }
}

/// Moves `amount` between two balances, or refuses and changes neither.
pub fn move_balance(from: &mut u64, to: &mut u64, amount: u64) -> (done: Result<(), CustomError>)
    ensures
        settled((*old(from), *old(to)), (*final(from), *final(to)), done, moved(*old(from), *old(to), amount)),
{
    if *from < amount {
        return Err(CustomError::InsufficientFunds);
    }
    match to.checked_add(amount) {
        None => Err(CustomError::BalanceOverflow),
        Some(sum) => {
            *from = *from - amount;
            *to = sum;
            Ok(())
        },
    }
}

/// The payer and the vault after `amount` of native balance is locked.
pub open spec fn locked<T>(payer: SystemAccount, vault: Account<T>, amount: u64) -> Result<
    (SystemAccount, Account<T>),
    CustomError,
> {
    match moved(payer.lamports, vault.lamports, amount) {
        Ok((rest, sum)) => Ok(
            (SystemAccount { lamports: rest, ..payer }, Account { lamports: sum, ..vault }),
        ),
        Err(e) => Err(e),
    }
}

/// Locks `amount` of the payer's native balance in the vault.
pub fn lock<T>(amount: u64, payer: &mut SystemAccount, vault: &mut Account<T>) -> (done: Result<
    (),
    CustomError,
>)
    ensures
        settled(
            (*old(payer), *old(vault)),
            (*final(payer), *final(vault)),
            done,
            locked(*old(payer), *old(vault), amount),
        ),
{
    move_balance(&mut payer.lamports, &mut vault.lamports, amount)
}

/// The vault and the destination after `amount` of native balance is released.
pub open spec fn released<T>(vault: Account<T>, destination: SystemAccount, amount: u64) -> Result<
    (Account<T>, SystemAccount),
    CustomError,
> {
    match moved(vault.lamports, destination.lamports, amount) {
        Ok((rest, sum)) => Ok(
            (Account { lamports: rest, ..vault }, SystemAccount { lamports: sum, ..destination }),
        ),
        Err(e) => Err(e),
    }
}

/// Releases `amount` of the vault's native balance to the destination.
pub fn release<T>(amount: u64, vault: &mut Account<T>, destination: &mut SystemAccount) -> (done:
    Result<(), CustomError>)
    ensures
        settled(
            (*old(vault), *old(destination)),
            (*final(vault), *final(destination)),
            done,
            released(*old(vault), *old(destination), amount),
        ),
{
    move_balance(&mut vault.lamports, &mut destination.lamports, amount)
}

/// The entry and the destination after the entry is destroyed: its data is
/// gone and all the native balance it held is with the destination.
pub open spec fn torn_down<T>(vault: Account<T>, refund_to: SystemAccount) -> Result<
    (Account<T>, SystemAccount),
    CustomError,
> {
    if refund_to.lamports + vault.lamports > u64::MAX {
        Err(CustomError::BalanceOverflow)
    } else {
        Ok(
            (
                Account { key: vault.key, lamports: 0, data: None },
                SystemAccount {
                    lamports: (refund_to.lamports + vault.lamports) as u64,
                    ..refund_to
                },
            ),
        )
    }
}

/// Destroys an entry and hands what it held to `refund_to`.
pub fn teardown<T>(vault: &mut Account<T>, refund_to: &mut SystemAccount) -> (done: Result<
    (),
    CustomError,
>)
    ensures
        settled(
            (*old(vault), *old(refund_to)),
            (*final(vault), *final(refund_to)),
            done,
            torn_down(*old(vault), *old(refund_to)),
        ),
{
    match refund_to.lamports.checked_add(vault.lamports) {
        None => Err(CustomError::BalanceOverflow),
        Some(sum) => {
            refund_to.lamports = sum;
            vault.lamports = 0;
            vault.data = None;
            Ok(())
        },
    }
}

/// What the payer adds to an entry that is being created, so that it holds
/// `minimum`: what is missing, and nothing where it holds that much already.
pub open spec fn funding_needed(current: u64, minimum: u64) -> u64 {
    if minimum > current {
        (minimum - current) as u64
    } else {
        0
    }
}

/// The payer and the entry after the entry is created with `data`: refused
/// where the entry already holds data, or the payer cannot fund it.
pub open spec fn opened<T>(payer: SystemAccount, slot: Account<T>, minimum: u64, data: T) -> Result<
    (SystemAccount, Account<T>),
    CustomError,
> {
    if slot.data is Some {
        Err(CustomError::CreationConflict)
    } else if payer.lamports < funding_needed(slot.lamports, minimum) {
        Err(CustomError::InsufficientFunds)
    } else {
        Ok(
            (
                SystemAccount {
                    lamports: (payer.lamports - funding_needed(slot.lamports, minimum)) as u64,
                    ..payer
                },
                Account {
                    key: slot.key,
                    lamports: (slot.lamports + funding_needed(slot.lamports, minimum)) as u64,
                    data: Some(data),
                },
            ),
        )
    }
}

/// Creates an entry that holds `data`, funded by the payer up to `minimum`.
pub fn open_account<T>(
    payer: &mut SystemAccount,
    slot: &mut Account<T>,
    minimum: u64,
    data: T,
) -> (done: Result<(), CustomError>)
    ensures
        settled(
            (*old(payer), *old(slot)),
            (*final(payer), *final(slot)),
            done,
            opened(*old(payer), *old(slot), minimum, data),
        ),
{
    if slot.data.is_some() {
        return Err(CustomError::CreationConflict);
    }
    let needed: u64 = if minimum > slot.lamports {
        minimum - slot.lamports
    } else {
        0
    };
    if payer.lamports < needed {
        return Err(CustomError::InsufficientFunds);
    }
    payer.lamports = payer.lamports - needed;
    slot.lamports = slot.lamports + needed;
    slot.data = Some(data);
    Ok(())
}

} // verus!
