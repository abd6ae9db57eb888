//! The custody transfer as the token program takes it: the instruction that
//! moves units from one balance to another on one authority's word.
use vstd::prelude::*;
use spl_token::solana_program::program_error::ProgramError;
use spl_token::solana_program::pubkey::Pubkey;
use crate::address::Address;
use crate::error::FundraiserError;
use crate::outcome::{Transfer, TransferView};
use crate::token::token_program_id;
use crate::wire::u64_le;

verus! {

/// One account that an instruction names, and how it takes part.
#[derive(Clone, Copy, Debug, PartialEq, Eq)]
pub struct AccountRole {
    /// The account.
    pub key: Address,
    /// Whether the account must sign.
    pub is_signer: bool,
    /// Whether the instruction may change the account.
    pub is_writable: bool,
}

/// The mathematical content of an [`AccountRole`].
pub struct AccountRoleView {
    pub key: Seq<u8>,
    pub is_signer: bool,
    pub is_writable: bool,
}

impl View for AccountRole {
    type V = AccountRoleView;

    open spec fn view(&self) -> AccountRoleView {
        AccountRoleView {
            key: self.key@,
            is_signer: self.is_signer,
            is_writable: self.is_writable,
        }
    }
}

/// An instruction for the token program.
#[derive(Clone, Debug, PartialEq, Eq)]
pub struct TokenInstruction {
    /// The program to invoke.
    pub program: Address,
    /// The accounts to hand it, in order.
    pub accounts: Vec<AccountRole>,
    /// The instruction data.
    pub data: Vec<u8>,
}

/// The mathematical content of a [`TokenInstruction`].
pub struct TokenInstructionView {
    pub program: Seq<u8>,
    pub accounts: Seq<AccountRoleView>,
    pub data: Seq<u8>,
}

impl View for TokenInstruction {
    type V = TokenInstructionView;

    open spec fn view(&self) -> TokenInstructionView {
        TokenInstructionView {
            program: self.program@,
            accounts: self.accounts@.map_values(|role: AccountRole| role@),
            data: self.data@,
        }
    }
}

/// The token program's transfer instruction: the tag 3 and the amount in 8
/// little-endian bytes, on the accounts source (writable), destination
/// (writable) and authority (signer).
pub open spec fn transfer_instruction(transfer: TransferView) -> TokenInstructionView {
    TokenInstructionView {
        program: token_program_id(),
        accounts: seq![
            AccountRoleView { key: transfer.source, is_signer: false, is_writable: true },
            AccountRoleView { key: transfer.destination, is_signer: false, is_writable: true },
            AccountRoleView { key: transfer.authority, is_signer: true, is_writable: false },
        ],
        data: seq![3u8] + u64_le(transfer.amount),
    }
}

/// Calls `spl_token::instruction::transfer` with no further signers. It
/// refuses every program but the token program, and otherwise builds the
/// instruction that [`transfer_instruction`] describes.
#[verifier::external_body]
fn build_transfer(
    token_program: &Address,
    source: &Address,
    destination: &Address,
    authority: &Address,
    amount: u64,
) -> (built: Result<TokenInstruction, ProgramError>)
    ensures
        built is Ok <==> token_program@ == token_program_id(),
        built matches Ok(instruction) ==> instruction@ == transfer_instruction(
            TransferView {
                source: source@,
                destination: destination@,
                authority: authority@,
                amount,
                seeds: None,
            },
        ),
{
    let program = Pubkey::new_from_array(*token_program);
    let (from, to) = (Pubkey::new_from_array(*source), Pubkey::new_from_array(*destination));
    let by = Pubkey::new_from_array(*authority);
    let built = spl_token::instruction::transfer(&program, &from, &to, &by, &[], amount)?;
    let accounts = built.accounts.iter().map(
        |m| AccountRole {
            key: m.pubkey.to_bytes(),
            is_signer: m.is_signer,
            is_writable: m.is_writable,
        },
    ).collect();
    Ok(TokenInstruction { program: built.program_id.to_bytes(), accounts, data: built.data })
}

impl Transfer {
    /// The instruction that asks `token_program` to perform this transfer.
    /// Only the token program itself is asked; any other program is refused
    /// with `InvalidAssetRegistry`.
    pub fn instruction(&self, token_program: &Address) -> (built: Result<
        TokenInstruction,
        FundraiserError,
    >)
        ensures
            built is Ok <==> token_program@ == token_program_id(),
            built matches Ok(instruction) ==> instruction@ == transfer_instruction(self@),
            built matches Err(error) ==> error == FundraiserError::InvalidAssetRegistry,
    {
        match build_transfer(
            token_program,
            &self.source,
            &self.destination,
            &self.authority,
            self.amount,
        ) {
            Ok(instruction) => Ok(instruction),
            Err(_) => Err(FundraiserError::InvalidAssetRegistry),
        }
    }
}

} // verus!
