use vstd::prelude::*;
use crate::pubkey::Pubkey;
use crate::state::layout::{
    bool_byte, i64_bytes, lemma_number_bytes, put_bytes32, put_i64, put_u64, take_bytes32,
    take_i64, take_u64, u64_bytes,
};

verus! {

/// The record of one lock of a fungible token. Its vault is a token account
/// of its own, whose owner is the record's address.
#[derive(Clone, Copy, Debug, PartialEq, Eq)]
pub struct EscrowAccount {
    /// Who funded the lock, and who is refunded after the deadline.
    pub sender: Pubkey,
    /// The amount locked.
    pub amount: u64,
    /// A refund is allowed strictly after this instant, in seconds.
    pub expiration_time: i64,
    /// Set once, by the redemption.
    pub is_redeemed: bool,
    /// Which token is locked.
    pub token_mint: Pubkey,
    /// The SHA-256 digest of the secret that redeems the lock.
    pub hash_of_secret: [u8; 32],
    /// The nonce that makes the record's address valid.
    pub bump: u8,
}

impl EscrowAccount {
    /// The bytes that the fields of a stored record fill.
    pub const INIT_SPACE: usize = 114;

    /// The record that an initialisation writes.
    pub open spec fn fresh(
        sender: Pubkey,
        amount: u64,
        expiration_time: i64,
        token_mint: Pubkey,
        hash_of_secret: [u8; 32],
        bump: u8,
    ) -> EscrowAccount {
        EscrowAccount {
            sender,
            amount,
            expiration_time,
            is_redeemed: false,
            token_mint,
            hash_of_secret,
            bump,
        }
    }

    /// The bytes under which the record is stored: the holder, the amount,
    /// the deadline, the flag, the token, the commitment and the nonce, one
    /// after the other, numbers with their least significant byte first.
    pub open spec fn layout(self) -> Seq<u8> {
        self.sender@ + u64_bytes(self.amount) + i64_bytes(self.expiration_time) + seq![
            bool_byte(self.is_redeemed),
        ] + self.token_mint@ + self.hash_of_secret@ + seq![self.bump]
    }

    /// Every record fills the same number of bytes, and no two records are
    /// stored under the same bytes.
    pub proof fn lemma_layout(a: EscrowAccount, b: EscrowAccount)
        ensures
            a.layout().len() == EscrowAccount::INIT_SPACE,
            a.layout() == b.layout() ==> a == b,
    {
        lemma_number_bytes(a.amount, b.amount, a.expiration_time, b.expiration_time);
        if a.layout() == b.layout() {
            let (x, y) = (a.layout(), b.layout());
            assert(a.sender@ =~= x.subrange(0, 32));
            assert(b.sender@ =~= y.subrange(0, 32));
            assert(u64_bytes(a.amount) =~= x.subrange(32, 40));
            assert(u64_bytes(b.amount) =~= y.subrange(32, 40));
            assert(i64_bytes(a.expiration_time) =~= x.subrange(40, 48));
            assert(i64_bytes(b.expiration_time) =~= y.subrange(40, 48));
            assert(bool_byte(a.is_redeemed) == x[48]);
            assert(bool_byte(b.is_redeemed) == y[48]);
            assert(a.token_mint@ =~= x.subrange(49, 81));
            assert(b.token_mint@ =~= y.subrange(49, 81));
            assert(a.hash_of_secret@ =~= x.subrange(81, 113));
            assert(b.hash_of_secret@ =~= y.subrange(81, 113));
            assert(a.bump == x[113]);
            assert(b.bump == y[113]);
            Pubkey::lemma_view_injective(a.sender, b.sender);
            Pubkey::lemma_view_injective(a.token_mint, b.token_mint);
            assert(a.hash_of_secret =~= b.hash_of_secret);
        }
    }

    /// Writes the record as it is stored.
    pub fn to_bytes(&self) -> (bytes: Vec<u8>)
        ensures
            bytes@ == self.layout(),
            bytes@.len() == EscrowAccount::INIT_SPACE,
    {
        let mut bytes: Vec<u8> = Vec::new();
        assert(bytes@ + self.sender@ =~= self.sender@);
        put_bytes32(&mut bytes, &self.sender.bytes);
        put_u64(&mut bytes, self.amount);
        put_i64(&mut bytes, self.expiration_time);
        bytes.push(if self.is_redeemed { 1 } else { 0 });
        put_bytes32(&mut bytes, &self.token_mint.bytes);
        put_bytes32(&mut bytes, &self.hash_of_secret);
        bytes.push(self.bump);
        proof {
            EscrowAccount::lemma_layout(*self, *self);
            assert(bytes@ =~= self.layout());
        }
        bytes
    }

    /// Reads a stored record: the one record that is stored under these
    /// bytes, and none where no record is, because the length is another or
    /// the byte of the flag is neither zero nor one.
    pub fn try_from_slice(bytes: &[u8]) -> (record: Option<EscrowAccount>)
        ensures
            match record {
                Some(record) => record.layout() == bytes@,
                None => forall|any: EscrowAccount| any.layout() != bytes@,
            },
    {
        if bytes.len() != EscrowAccount::INIT_SPACE || bytes[48] > 1 {
            proof {
                assert forall|any: EscrowAccount| any.layout() != bytes@ by {
                    EscrowAccount::lemma_layout(any, any);
                    if bytes@.len() == EscrowAccount::INIT_SPACE {
                        assert(any.layout()[48] == bool_byte(any.is_redeemed));
                    }
                }
            }
            return None;
        }
        let record = EscrowAccount {
            sender: Pubkey { bytes: take_bytes32(bytes, 0) },
            amount: take_u64(bytes, 32),
            expiration_time: take_i64(bytes, 40),
            is_redeemed: bytes[48] == 1,
            token_mint: Pubkey { bytes: take_bytes32(bytes, 49) },
            hash_of_secret: take_bytes32(bytes, 81),
            bump: bytes[113],
        };
        proof {
            EscrowAccount::lemma_layout(record, record);
            assert(record.layout() =~= bytes@);
        }
        Some(record)
    }
}

} // verus!
