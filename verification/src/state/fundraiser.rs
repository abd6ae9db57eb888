//! The fundraiser record: who raises what, how much, until when.
use vstd::prelude::*;
use crate::account::Account;
use crate::address::{read_address, same_address, Address};
use crate::error::FundraiserError;
use crate::wire::{
    decode_i64, decode_u64, encode_i64, encode_u64, i64_le, le_i64, le_u64,
    lemma_i64_le_round_trip, lemma_le_u64_round_trip, lemma_u64_le_round_trip, u64_le,
};

verus! {

/// The state of one fundraising effort.
#[derive(Clone, Copy, Debug, PartialEq, Eq)]
pub struct Fundraiser {
    /// Who opened the fundraiser and may sweep its vault.
    pub maker: Address,
    /// The asset that is raised.
    pub mint_to_raise: Address,
    /// The goal.
    pub amount_to_raise: u64,
    /// The sum of all deposits that have not been refunded.
    pub current_amount: u64,
    /// The deadline, in seconds.
    pub time_ending: i64,
    /// The bump seed that proves the derivation of the fundraiser's address.
    pub bump: u8,
}

/// The mathematical content of a [`Fundraiser`].
pub struct FundraiserView {
    pub maker: Seq<u8>,
    pub mint_to_raise: Seq<u8>,
    pub amount_to_raise: u64,
    pub current_amount: u64,
    pub time_ending: i64,
    pub bump: u8,
}

impl View for Fundraiser {
    type V = FundraiserView;

    open spec fn view(&self) -> FundraiserView {
        FundraiserView {
            maker: self.maker@,
            mint_to_raise: self.mint_to_raise@,
            amount_to_raise: self.amount_to_raise,
            current_amount: self.current_amount,
            time_ending: self.time_ending,
            bump: self.bump,
        }
    }
}

impl FundraiserView {
    /// Both addresses have their full length. Every view of a
    /// [`Fundraiser`] is well formed.
    pub open spec fn well_formed(self) -> bool {
        self.maker.len() == 32 && self.mint_to_raise.len() == 32
    }

    /// The record on the wire, 89 bytes: maker (32), mint (32), target
    /// (8, little-endian), raised (8, little-endian), deadline (8,
    /// little-endian, signed), bump (1).
    pub open spec fn wire(self) -> Seq<u8> {
        self.maker + self.mint_to_raise + u64_le(self.amount_to_raise) + u64_le(
            self.current_amount,
        ) + i64_le(self.time_ending) + seq![self.bump]
    }

    /// The record that 89 bytes on the wire stand for.
    pub open spec fn parse(bytes: Seq<u8>) -> FundraiserView
        recommends
            bytes.len() == 89,
    {
        FundraiserView {
            maker: bytes.subrange(0, 32),
            mint_to_raise: bytes.subrange(32, 64),
            amount_to_raise: le_u64(bytes.subrange(64, 72)),
            current_amount: le_u64(bytes.subrange(72, 80)),
            time_ending: le_i64(bytes.subrange(80, 88)),
            bump: bytes[88],
        }
    }

    /// The record of a fundraiser that has just been opened.
    pub open spec fn opened(
        maker: Seq<u8>,
        mint_to_raise: Seq<u8>,
        amount_to_raise: u64,
        time_ending: i64,
        bump: u8,
    ) -> FundraiserView {
        FundraiserView {
            maker,
            mint_to_raise,
            amount_to_raise,
            current_amount: 0,
            time_ending,
            bump,
        }
    }
}

/// Writing a record and reading it back gives the same record.
pub proof fn lemma_parse_wire(record: FundraiserView)
    requires
        record.well_formed(),
    ensures
        record.wire().len() == 89,
        FundraiserView::parse(record.wire()) == record,
{
    let bytes = record.wire();
    lemma_u64_le_round_trip(record.amount_to_raise);
    lemma_u64_le_round_trip(record.current_amount);
    lemma_i64_le_round_trip(record.time_ending, i64_le(record.time_ending));
    assert(bytes.subrange(0, 32) =~= record.maker);
    assert(bytes.subrange(32, 64) =~= record.mint_to_raise);
    assert(bytes.subrange(64, 72) =~= u64_le(record.amount_to_raise));
    assert(bytes.subrange(72, 80) =~= u64_le(record.current_amount));
    assert(bytes.subrange(80, 88) =~= i64_le(record.time_ending));
}

/// Reading 89 bytes and writing the record back gives the same bytes: the
/// layout has no slack and no second spelling of any record.
pub proof fn lemma_wire_parse(bytes: Seq<u8>)
    requires
        bytes.len() == 89,
    ensures
        FundraiserView::parse(bytes).well_formed(),
        FundraiserView::parse(bytes).wire() == bytes,
{
    let record = FundraiserView::parse(bytes);
    lemma_le_u64_round_trip(bytes.subrange(64, 72));
    lemma_le_u64_round_trip(bytes.subrange(72, 80));
    lemma_i64_le_round_trip(0, bytes.subrange(80, 88));
    assert(record.wire() =~= bytes);
}

/// No two records share their bytes on the wire.
pub proof fn lemma_wire_is_injective(first: FundraiserView, second: FundraiserView)
    requires
        first.well_formed(),
        second.well_formed(),
        first.wire() == second.wire(),
    ensures
        first == second,
{
    lemma_parse_wire(first);
    lemma_parse_wire(second);
}

impl Fundraiser {
    /// Number of bytes in a fundraiser record.
    pub const LEN: usize = 89;

    /// The record of a fundraiser that has just been opened: nothing raised
    /// yet.
    pub fn init(
        maker: Address,
        mint_to_raise: Address,
        amount_to_raise: u64,
        time_ending: i64,
        bump: u8,
    ) -> (record: Fundraiser)
        ensures
            record@ == FundraiserView::opened(
                maker@,
                mint_to_raise@,
                amount_to_raise,
                time_ending,
                bump,
            ),
    {
        Fundraiser { maker, mint_to_raise, amount_to_raise, current_amount: 0, time_ending, bump }
    }

    /// The record on the wire.
    pub fn to_bytes(&self) -> (bytes: Vec<u8>)
        ensures
            bytes@ == self@.wire(),
            bytes@.len() == 89,
            FundraiserView::parse(bytes@) == self@,
    {
        let mut bytes: Vec<u8> = Vec::new();
        bytes.extend_from_slice(self.maker.as_slice());
        bytes.extend_from_slice(self.mint_to_raise.as_slice());
        bytes.extend_from_slice(encode_u64(self.amount_to_raise).as_slice());
        bytes.extend_from_slice(encode_u64(self.current_amount).as_slice());
        bytes.extend_from_slice(encode_i64(self.time_ending).as_slice());
        bytes.push(self.bump);
        proof {
            assert(bytes@ =~= self@.wire());
            lemma_parse_wire(self@);
        }
        bytes
    }

    /// Reads a record from the wire. Exactly the buffers of 89 bytes hold a
    /// record.
    pub fn try_from_slice(bytes: &[u8]) -> (read: Result<Fundraiser, FundraiserError>)
        ensures
            read is Ok <==> bytes@.len() == 89,
            read matches Ok(record) ==> record@ == FundraiserView::parse(bytes@) && record@.wire()
                == bytes@,
            read matches Err(error) ==> error == FundraiserError::InvalidRecord,
    {
        if bytes.len() != 89 {
            return Err(FundraiserError::InvalidRecord);
        }
        let record = Fundraiser {
            maker: read_address(bytes, 0),
            mint_to_raise: read_address(bytes, 32),
            amount_to_raise: decode_u64(bytes, 64),
            current_amount: decode_u64(bytes, 72),
            time_ending: decode_i64(bytes, 80),
            bump: bytes[88],
        };
        proof {
            lemma_wire_parse(bytes@);
        }
        Ok(record)
    }

    /// Reads the record that an account holds, without asking who owns the
    /// account.
    pub fn from_account_info_unchecked(account: &Account) -> (read: Result<
        Fundraiser,
        FundraiserError,
    >)
        ensures
            read is Ok <==> account@.data.len() == 89,
            read matches Ok(record) ==> record@ == FundraiserView::parse(account@.data),
            read matches Err(error) ==> error == FundraiserError::InvalidRecord,
    {
        Fundraiser::try_from_slice(account.data.as_slice())
    }

    /// Reads the record that an account holds, provided the account has the
    /// size of a record and belongs to `program`.
    pub fn from_account_info(account: &Account, program: &Address) -> (read: Result<
        Fundraiser,
        FundraiserError,
    >)
        ensures
            read is Ok <==> account@.data.len() == 89 && account@.owner == program@,
            read matches Ok(record) ==> record@ == FundraiserView::parse(account@.data),
            read matches Err(error) ==> error == (if account@.data.len() != 89 {
                FundraiserError::InvalidRecord
            } else {
                FundraiserError::RecordNotOwned
            }),
    {
        if account.data.len() != 89 {
            return Err(FundraiserError::InvalidRecord);
        }
        if !same_address(&account.owner, program) {
            return Err(FundraiserError::RecordNotOwned);
        }
        Fundraiser::from_account_info_unchecked(account)
    }

    /// Who opened the fundraiser.
    pub fn maker(&self) -> (maker: Address)
        ensures
            maker@ == self@.maker,
    {
        self.maker
    }

    /// The asset that is raised.
    pub fn mint_to_raise(&self) -> (mint: Address)
        ensures
            mint@ == self@.mint_to_raise,
    {
        self.mint_to_raise
    }

    /// The goal.
    pub fn amount_to_raise(&self) -> (amount: u64)
        ensures
            amount == self@.amount_to_raise,
    {
        self.amount_to_raise
    }

    /// The sum of all deposits that have not been refunded.
    pub fn amount_raised(&self) -> (amount: u64)
        ensures
            amount == self@.current_amount,
    {
        self.current_amount
    }

    /// The deadline, in seconds.
    pub fn time_ending(&self) -> (time: i64)
        ensures
            time == self@.time_ending,
    {
        self.time_ending
    }

    /// The bump seed recorded when the fundraiser was opened.
    pub fn bump(&self) -> (bump: u8)
        ensures
            bump == self@.bump,
    {
        self.bump
    }
}

} // verus!
