use vstd::prelude::*;

verus! {

/// Seed prefix of the address of a record that locks a fungible token: the bytes of `escrow_spl`.
pub const SEED_ESCROW_SPL: [u8; 10] = [101, 115, 99, 114, 111, 119, 95, 115, 112, 108];

/// Seed prefix of the address of a record that locks native balance: the bytes of `escrow_sol`.
pub const SEED_ESCROW_SOL: [u8; 10] = [101, 115, 99, 114, 111, 119, 95, 115, 111, 108];

/// Number of bytes that precede the fields of every stored record.
pub const ANCHOR_DISCRIMINATOR_SIZE: usize = 8;

} // verus!
