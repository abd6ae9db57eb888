//! The contributor record: what one contributor has on deposit.
use vstd::prelude::*;
use crate::account::Account;
use crate::address::{same_address, Address};
use crate::error::FundraiserError;
use crate::wire::{
    decode_u64, encode_u64, le_u64, lemma_le_u64_round_trip, lemma_u64_le_round_trip, u64_le,
};

verus! {

/// What one contributor has deposited with one fundraiser and not been
/// refunded.
#[derive(Clone, Copy, Debug, PartialEq, Eq, Structural)]
pub struct Contributor {
    /// Units on deposit.
    pub amount: u64,
}

impl Contributor {
    /// Number of bytes in a contributor record.
    pub const LEN: usize = 8;

    /// The record on the wire, 8 bytes: the amount, little-endian.
    pub open spec fn wire(self) -> Seq<u8> {
        u64_le(self.amount)
    }

    /// The record that 8 bytes on the wire stand for.
    pub open spec fn parse(bytes: Seq<u8>) -> Contributor
        recommends
            bytes.len() == 8,
    {
        Contributor { amount: le_u64(bytes) }
    }

    /// The record on the wire.
    pub fn to_bytes(&self) -> (bytes: Vec<u8>)
        ensures
            bytes@ == self.wire(),
            bytes@.len() == 8,
            Contributor::parse(bytes@) == *self,
    {
        let mut bytes: Vec<u8> = Vec::new();
        bytes.extend_from_slice(encode_u64(self.amount).as_slice());
        proof {
            lemma_u64_le_round_trip(self.amount);
        }
        bytes
    }

    /// Reads a record from the wire. Exactly the buffers of 8 bytes hold a
    /// record.
    pub fn try_from_slice(bytes: &[u8]) -> (read: Result<Contributor, FundraiserError>)
        ensures
            read is Ok <==> bytes@.len() == 8,
            read matches Ok(record) ==> record == Contributor::parse(bytes@) && record.wire()
                == bytes@,
            read matches Err(error) ==> error == FundraiserError::InvalidRecord,
    {
        if bytes.len() != 8 {
            return Err(FundraiserError::InvalidRecord);
        }
        let record = Contributor { amount: decode_u64(bytes, 0) };
        proof {
            lemma_le_u64_round_trip(bytes@);
        }
        Ok(record)
    }

    /// Reads the record that an account holds, without asking who owns the
    /// account.
    pub fn from_account_info_unchecked(account: &Account) -> (read: Result<
        Contributor,
        FundraiserError,
    >)
        ensures
            read is Ok <==> account@.data.len() == 8,
            read matches Ok(record) ==> record == Contributor::parse(account@.data),
            read matches Err(error) ==> error == FundraiserError::InvalidRecord,
    {
        Contributor::try_from_slice(account.data.as_slice())
    }

    /// Reads the record that an account holds, provided the account has the
    /// size of a record and belongs to `program`.
    pub fn from_account_info(account: &Account, program: &Address) -> (read: Result<
        Contributor,
        FundraiserError,
    >)
        ensures
            read is Ok <==> account@.data.len() == 8 && account@.owner == program@,
            read matches Ok(record) ==> record == Contributor::parse(account@.data),
            read matches Err(error) ==> error == (if account@.data.len() != 8 {
                FundraiserError::InvalidRecord
            } else {
                FundraiserError::RecordNotOwned
            }),
    {
        if account.data.len() != 8 {
            return Err(FundraiserError::InvalidRecord);
        }
        if !same_address(&account.owner, program) {
            return Err(FundraiserError::RecordNotOwned);
        }
        Contributor::from_account_info_unchecked(account)
    }

    /// Units on deposit.
    pub fn amount(&self) -> (amount: u64)
        ensures
            amount == self.amount,
    {
        self.amount
    }
}

} // verus!
