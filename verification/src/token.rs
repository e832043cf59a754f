use vstd::prelude::*;
use crate::accounts::{Account, SystemAccount};
use crate::derivation::{
    address_view, program_address_found, seeds_view, try_find_program_address,
};
use crate::error::{settled, CustomError};
use crate::native::{open_account, opened, teardown, torn_down};
use crate::pubkey::Pubkey;

verus! {

/// A fungible token: its identity and the number of decimal places in which
/// its amounts are written.
#[derive(Clone, Copy, Debug, PartialEq, Eq)]
pub struct Mint {
    pub key: Pubkey,
    pub decimals: u8,
}

/// What a token account stores: which token it holds, who controls it, and
/// how much it holds.
#[derive(Clone, Copy, Debug, PartialEq, Eq)]
pub struct TokenAccount {
    pub mint: Pubkey,
    pub owner: Pubkey,
    pub amount: u64,
}

/// The entries that a checked transfer of tokens names.
#[derive(Clone, Copy, Debug, PartialEq, Eq)]
pub struct TransferChecked {
    pub from: Pubkey,
    pub to: Pubkey,
    pub authority: Pubkey,
    pub mint: Pubkey,
}

/// The entries that the deletion of a token account names.
#[derive(Clone, Copy, Debug, PartialEq, Eq)]
pub struct CloseAccount {
    pub account: Pubkey,
    pub destination: Pubkey,
    pub authority: Pubkey,
}

/// The two token accounts after `amount` of the token has gone from the
/// first to the second under `authority`. Refused where one of them does not
/// exist, where the first holds less, where the accounts or the stated
/// decimals are not those of the token, where the authority does not control
/// the first, and where the second cannot hold more.
pub open spec fn transferred(
    from: Account<TokenAccount>,
    to: Account<TokenAccount>,
    mint: Mint,
    authority: Pubkey,
    amount: u64,
    decimals: u8,
) -> Result<(Account<TokenAccount>, Account<TokenAccount>), CustomError> {
    match (from.data, to.data) {
        (Some(source), Some(destination)) => if source.amount < amount {
            Err(CustomError::InsufficientFunds)
        } else if source.mint@ != destination.mint@ || mint.key@ != source.mint@ || decimals
            != mint.decimals {
            Err(CustomError::AssetMismatch)
        } else if authority@ != source.owner@ {
            Err(CustomError::AddressMismatch)
        } else if destination.amount + amount > u64::MAX {
            Err(CustomError::BalanceOverflow)
        } else {
            Ok(
                (
                    Account {
                        data: Some(
                            TokenAccount { amount: (source.amount - amount) as u64, ..source },
                        ),
                        ..from
                    },
                    Account {
                        data: Some(
                            TokenAccount {
                                amount: (destination.amount + amount) as u64,
                                ..destination
                            },
                        ),
                        ..to
                    },
                ),
            )
        },
        _ => Err(CustomError::NotFound),
    }
}

/// Moves `amount` of a token between two token accounts under `authority`,
/// after checking the token and its decimals: the way tokens are locked in a
/// vault and released from it.
pub fn transfer_checked(
    from: &mut Account<TokenAccount>,
    to: &mut Account<TokenAccount>,
    mint: &Mint,
    authority: &Pubkey,
    amount: u64,
    decimals: u8,
) -> (done: Result<(), CustomError>)
    ensures
        settled(
            (*old(from), *old(to)),
            (*final(from), *final(to)),
            done,
            transferred(*old(from), *old(to), *mint, *authority, amount, decimals),
        ),
{
    let source = match from.data {
        None => {
            return Err(CustomError::NotFound);
        },
        Some(source) => source,
    };
    let destination = match to.data {
        None => {
            return Err(CustomError::NotFound);
        },
        Some(destination) => destination,
    };
    if source.amount < amount {
        return Err(CustomError::InsufficientFunds);
    }
    if source.mint != destination.mint || mint.key != source.mint || decimals != mint.decimals {
        return Err(CustomError::AssetMismatch);
    }
    if *authority != source.owner {
        return Err(CustomError::AddressMismatch);
    }
    match destination.amount.checked_add(amount) {
        None => Err(CustomError::BalanceOverflow),
        Some(sum) => {
            from.data = Some(TokenAccount { amount: source.amount - amount, ..source });
            to.data = Some(TokenAccount { amount: sum, ..destination });
            Ok(())
        },
    }
}

/// The token account and the destination after the account is deleted under
/// `authority`: the account is gone and the native balance it held is with
/// the destination. Refused where the destination is the account itself,
/// where the account does not exist or still holds tokens, where the
/// authority does not control it, and where the destination cannot hold more.
pub open spec fn closed(
    account: Account<TokenAccount>,
    destination: SystemAccount,
    authority: Pubkey,
) -> Result<(Account<TokenAccount>, SystemAccount), CustomError> {
    if account.key@ == destination.key@ {
        Err(CustomError::AddressMismatch)
    } else {
        match account.data {
            None => Err(CustomError::NotFound),
            Some(state) => if state.amount != 0 {
                Err(CustomError::VaultNotEmpty)
            } else if authority@ != state.owner@ {
                Err(CustomError::AddressMismatch)
            } else {
                torn_down(account, destination)
            },
        }
    }
}

/// Deletes an empty token account under `authority` and hands the native
/// balance it held to the destination: the way a vault is torn down.
pub fn close_account(
    account: &mut Account<TokenAccount>,
    destination: &mut SystemAccount,
    authority: &Pubkey,
) -> (done: Result<(), CustomError>)
    ensures
        settled(
            (*old(account), *old(destination)),
            (*final(account), *final(destination)),
            done,
            closed(*old(account), *old(destination), *authority),
        ),
{
    if account.key == destination.key {
        return Err(CustomError::AddressMismatch);
    }
    match account.data {
        None => Err(CustomError::NotFound),
        Some(state) => {
            if state.amount != 0 {
                return Err(CustomError::VaultNotEmpty);
            }
            if *authority != state.owner {
                return Err(CustomError::AddressMismatch);
            }
            teardown(account, destination)
        },
    }
}

/// The seeds of the token account that belongs to a wallet for one token.
pub open spec fn associated_token_seeds(
    wallet: Seq<u8>,
    token_program: Seq<u8>,
    mint: Seq<u8>,
) -> Seq<Seq<u8>> {
    seq![wallet, token_program, mint]
}

/// The address of the token account that belongs to a wallet for one token:
/// the canonical address of the wallet, the token program and the token,
/// derived under the program that keeps such accounts.
pub open spec fn associated_token_address(
    wallet: Seq<u8>,
    mint: Seq<u8>,
    token_program: Seq<u8>,
    associated_token_program: Seq<u8>,
) -> Option<Seq<u8>> {
    match program_address_found(
        associated_token_seeds(wallet, token_program, mint),
        associated_token_program,
    ) {
        Some((address, _)) => Some(address),
        None => None,
    }
}

/// Derives the address of the token account that belongs to a wallet for
/// one token.
pub fn get_associated_token_address(
    wallet: &Pubkey,
    mint: &Pubkey,
    token_program: &Pubkey,
    associated_token_program: &Pubkey,
) -> (address: Option<Pubkey>)
    ensures
        address_view(address) == associated_token_address(
            wallet@,
            mint@,
            token_program@,
            associated_token_program@,
        ),
{
    let mut seeds: Vec<Vec<u8>> = Vec::new();
    seeds.push(vstd::slice::slice_to_vec(wallet.bytes.as_slice()));
    seeds.push(vstd::slice::slice_to_vec(token_program.bytes.as_slice()));
    seeds.push(vstd::slice::slice_to_vec(mint.bytes.as_slice()));
    assert(seeds_view(seeds@) =~= associated_token_seeds(wallet@, token_program@, mint@));
    match try_find_program_address(&seeds, associated_token_program) {
        Some((address, _)) => Some(address),
        None => None,
    }
}

/// The payer and the place after a wallet's token account for `mint` is
/// created there, empty. Refused where the place is not the address derived
/// for the wallet and the token, where a token account stands there already,
/// and where the payer cannot fund it.
pub open spec fn created(
    payer: SystemAccount,
    slot: Account<TokenAccount>,
    expected: Option<Seq<u8>>,
    wallet: Pubkey,
    mint: Pubkey,
    minimum: u64,
) -> Result<(SystemAccount, Account<TokenAccount>), CustomError> {
    if expected != Some(slot.key@) {
        Err(CustomError::AddressMismatch)
    } else {
        opened(payer, slot, minimum, TokenAccount { mint, owner: wallet, amount: 0 })
    }
}

/// Creates the empty token account of a wallet for `mint` at the address
/// derived for them, funded by the payer.
pub fn create_associated_token_account(
    payer: &mut SystemAccount,
    slot: &mut Account<TokenAccount>,
    expected: Option<Pubkey>,
    wallet: &Pubkey,
    mint: &Pubkey,
    minimum: u64,
) -> (done: Result<(), CustomError>)
    ensures
        settled(
            (*old(payer), *old(slot)),
            (*final(payer), *final(slot)),
            done,
            created(*old(payer), *old(slot), address_view(expected), *wallet, *mint, minimum),
        ),
{
    match expected {
        None => Err(CustomError::AddressMismatch),
        Some(address) => {
            if address != slot.key {
                return Err(CustomError::AddressMismatch);
            }
            open_account(payer, slot, minimum, TokenAccount { mint: *mint, owner: *wallet, amount: 0 })
        },
    }
}

} // verus!
