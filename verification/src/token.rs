//! Token balances, as the token program lays them out, and the token
//! programs whose assets a fundraiser may raise.
use vstd::prelude::*;
use spl_token::solana_program::program_error::ProgramError;
use spl_token::solana_program::program_pack::Pack;
use crate::address::Address;
use crate::error::FundraiserError;
use crate::wire::le_u64;

verus! {

/// The error type of the token program's own parsers.
#[verifier::external_type_specification]
#[verifier::external_body]
pub struct ExProgramError(spl_token::solana_program::program_error::ProgramError);

/// Number of bytes in a token account.
pub const TOKEN_ACCOUNT_BYTES: usize = 165;

/// What an operation reads of a token account: which asset it holds, who
/// may move it, and how much there is.
#[derive(Clone, Copy, Debug, PartialEq, Eq)]
pub struct TokenBalance {
    /// The asset held.
    pub mint: Address,
    /// The authority over the balance.
    pub owner: Address,
    /// The number of units held.
    pub amount: u64,
}

/// The mathematical content of a [`TokenBalance`].
pub struct TokenBalanceView {
    pub mint: Seq<u8>,
    pub owner: Seq<u8>,
    pub amount: u64,
}

impl View for TokenBalance {
    type V = TokenBalanceView;

    open spec fn view(&self) -> TokenBalanceView {
        TokenBalanceView { mint: self.mint@, owner: self.owner@, amount: self.amount }
    }
}

/// Whether the four bytes at `at` are the tag of an optional field: a
/// little-endian 0 (absent) or 1 (present).
pub open spec fn option_tag(data: Seq<u8>, at: int) -> bool {
    &&& data[at] == 0u8 || data[at] == 1u8
    &&& data[at + 1] == 0u8
    &&& data[at + 2] == 0u8
    &&& data[at + 3] == 0u8
}

/// Whether `data` is a token account that the token program accepts as
/// initialised: 165 bytes, the three optional fields (delegate at 72,
/// native reserve at 109, close authority at 129) properly tagged, and the
/// state byte at 108 either 1 (initialised) or 2 (frozen).
pub open spec fn token_account_well_formed(data: Seq<u8>) -> bool {
    &&& data.len() == 165
    &&& option_tag(data, 72)
    &&& data[108] == 1u8 || data[108] == 2u8
    &&& option_tag(data, 109)
    &&& option_tag(data, 129)
}

/// The balance that a well-formed token account holds: the mint in bytes
/// 0..32, the owner in bytes 32..64, the amount in bytes 64..72.
pub open spec fn token_balance(data: Seq<u8>) -> TokenBalanceView {
    TokenBalanceView {
        mint: data.subrange(0, 32),
        owner: data.subrange(32, 64),
        amount: le_u64(data.subrange(64, 72)),
    }
}

/// The address of the token program.
pub open spec fn token_program_id() -> Seq<u8> {
    seq![
        6u8, 221u8, 246u8, 225u8, 215u8, 101u8, 161u8, 147u8, 217u8, 203u8, 225u8, 70u8, 206u8,
        235u8, 121u8, 172u8, 28u8, 180u8, 133u8, 237u8, 95u8, 91u8, 55u8, 145u8, 58u8, 140u8,
        245u8, 133u8, 126u8, 255u8, 0u8, 169u8,
    ]
}

/// The address of the token program's successor with extensions.
pub open spec fn token_2022_program_id() -> Seq<u8> {
    seq![
        6u8, 221u8, 246u8, 225u8, 238u8, 117u8, 143u8, 222u8, 24u8, 66u8, 93u8, 188u8, 228u8,
        108u8, 205u8, 218u8, 182u8, 26u8, 252u8, 77u8, 131u8, 185u8, 13u8, 39u8, 254u8, 189u8,
        249u8, 40u8, 216u8, 161u8, 139u8, 252u8,
    ]
}

/// Whether `owner` is a token program whose assets a fundraiser may raise.
pub open spec fn recognised_registry(owner: Seq<u8>) -> bool {
    owner == token_program_id() || owner == token_2022_program_id()
}

/// Calls `spl_token::state::Account::unpack`. It accepts exactly the
/// buffers that are [`token_account_well_formed`], and reads mint, owner
/// and amount from the fixed offsets of [`token_balance`].
#[verifier::external_body]
fn unpack_account(data: &[u8]) -> (unpacked: Result<TokenBalance, ProgramError>)
    ensures
        unpacked is Ok <==> token_account_well_formed(data@),
        unpacked matches Ok(balance) ==> balance@ == token_balance(data@),
{
    match spl_token::state::Account::unpack(data) {
        Ok(account) => Ok(
            TokenBalance {
                mint: account.mint.to_bytes(),
                owner: account.owner.to_bytes(),
                amount: account.amount,
            },
        ),
        Err(error) => Err(error),
    }
}

/// Calls `spl_token::check_id`, which compares an address with the token
/// program's.
#[verifier::external_body]
fn is_token_program(owner: &Address) -> (is: bool)
    ensures
        is == (owner@ == token_program_id()),
{
    spl_token::check_id(&spl_token::solana_program::pubkey::Pubkey::new_from_array(*owner))
}

/// Calls `spl_token_2022::check_id`, which compares an address with that of
/// the token program with extensions.
#[verifier::external_body]
fn is_token_2022_program(owner: &Address) -> (is: bool)
    ensures
        is == (owner@ == token_2022_program_id()),
{
    spl_token_2022::check_id(&solana_program::pubkey::Pubkey::new_from_array(*owner))
}

/// Whether the program at `owner` is a recognised token program.
pub fn is_recognised_registry(owner: &Address) -> (recognised: bool)
    ensures
        recognised == recognised_registry(owner@),
{
    is_token_program(owner) || is_token_2022_program(owner)
}

impl TokenBalance {
    /// Reads the balance held in a token account's data.
    pub fn unpack(data: &[u8]) -> (unpacked: Result<TokenBalance, FundraiserError>)
        ensures
            unpacked is Ok <==> token_account_well_formed(data@),
            unpacked matches Ok(balance) ==> balance@ == token_balance(data@),
            unpacked matches Err(error) ==> error == FundraiserError::InvalidTokenAccount,
    {
        match unpack_account(data) {
            Ok(balance) => Ok(balance),
            Err(_) => Err(FundraiserError::InvalidTokenAccount),
        }
    }
}

} // verus!
