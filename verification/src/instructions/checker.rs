//! Sweeping the vault to the maker and closing the fundraiser.
use vstd::prelude::*;
use crate::account::{account_views, Account, AccountView};
use crate::address::{same_address, Address};
use crate::authority::{authority_view, derive_fundraiser, fundraiser_authority, Authority};
use crate::error::FundraiserError;
use crate::instructions::derives;
use crate::lifecycle::{checker_instruction, checker_spec};
use crate::outcome::{
    closing_view, Closing, ClosingView, SignerSeeds, SignerSeedsView, Transfer, TransferView,
};
use crate::state::fundraiser::{Fundraiser, FundraiserView};
use crate::token::{token_account_well_formed, token_balance, TokenBalance};

verus! {

/// What a sweep does, given the accounts `[maker, maker's balance,
/// fundraiser record, vault]`, an empty payload, the time, and the authority
/// that was derived for the maker.
///
/// It is refused, in this order: with `NotEnoughAccounts` when fewer than
/// four accounts are supplied; with `InvalidPayload` when the payload is not
/// empty; with `MissingSignature` when the maker has not signed; with
/// `InvalidRecord` or `RecordNotOwned` when the fundraiser record has the
/// wrong size or does not belong to `program`; with `AddressMismatch` when
/// the signer is not the recorded maker or the record is not at the derived
/// address; with `InvalidTokenAccount` when the vault or the maker's balance
/// is no initialised token account; with `AddressMismatch` when the vault is
/// not controlled by the fundraiser's address; and then as [`checker_spec`]
/// says. Otherwise the whole vault is to be moved to the maker's balance on
/// the derived authority, after which the record is to be filled with zeros
/// and its storage allowance given to the maker.
pub open spec fn check_contributions_spec(
    program: Seq<u8>,
    accounts: Seq<AccountView>,
    data: Seq<u8>,
    now: i64,
    authority: Option<(Seq<u8>, u8)>,
) -> Result<ClosingView, FundraiserError> {
    if accounts.len() < 4 {
        Err(FundraiserError::NotEnoughAccounts)
    } else if data.len() != 0 {
        Err(FundraiserError::InvalidPayload)
    } else if !accounts[0].is_signer {
        Err(FundraiserError::MissingSignature)
    } else if accounts[2].data.len() != 89 {
        Err(FundraiserError::InvalidRecord)
    } else if accounts[2].owner != program {
        Err(FundraiserError::RecordNotOwned)
    } else if accounts[0].key != FundraiserView::parse(accounts[2].data).maker || !derives(
        authority,
        accounts[2].key,
    ) {
        Err(FundraiserError::AddressMismatch)
    } else if !token_account_well_formed(accounts[3].data) || !token_account_well_formed(
        accounts[1].data,
    ) {
        Err(FundraiserError::InvalidTokenAccount)
    } else if token_balance(accounts[3].data).owner != accounts[2].key {
        Err(FundraiserError::AddressMismatch)
    } else {
        match checker_spec(
            FundraiserView::parse(accounts[2].data),
            token_balance(accounts[3].data).amount,
            token_balance(accounts[1].data),
            accounts[0].lamports,
            accounts[2].lamports,
            now,
        ) {
            Ok(withdrawal) => Ok(
                ClosingView {
                    transfer: TransferView {
                        source: accounts[3].key,
                        destination: accounts[1].key,
                        authority: accounts[2].key,
                        amount: withdrawal.amount,
                        seeds: Some(
                            SignerSeedsView { maker: accounts[0].key, bump: authority.unwrap().1 },
                        ),
                    },
                    maker_lamports: withdrawal.maker_lamports,
                },
            ),
            Err(error) => Err(error),
        }
    }
}

/// The authority that a sweep derives: that of the maker in the first
/// account, under `program`.
pub open spec fn check_contributions_authority(
    accounts: Seq<AccountView>,
    program: Seq<u8>,
) -> Option<(Seq<u8>, u8)> {
    if accounts.len() < 4 {
        None
    } else {
        fundraiser_authority(accounts[0].key, program)
    }
}

/// Decides a sweep, given what the derivation for the maker produced.
pub fn check_contributions_with(
    program_id: &Address,
    accounts: &[Account],
    instruction_data: &[u8],
    now: i64,
    authority: Option<Authority>,
) -> (outcome: Result<Closing, FundraiserError>)
    ensures
        closing_view(outcome) == check_contributions_spec(
            program_id@,
            account_views(accounts@),
            instruction_data@,
            now,
            authority_view(authority),
        ),
{
    if accounts.len() < 4 {
        return Err(FundraiserError::NotEnoughAccounts);
    }
    if instruction_data.len() != 0 {
        return Err(FundraiserError::InvalidPayload);
    }
    let maker = &accounts[0];
    let maker_ta = &accounts[1];
    let fundraiser_account = &accounts[2];
    let vault = &accounts[3];
    if !maker.is_signer {
        return Err(FundraiserError::MissingSignature);
    }
    let fundraiser = match Fundraiser::from_account_info(fundraiser_account, program_id) {
        Ok(fundraiser) => fundraiser,
        Err(error) => { return Err(error); },
    };
    if !same_address(&maker.key, &fundraiser.maker) {
        return Err(FundraiserError::AddressMismatch);
    }
    let bump = match authority {
        Some(found) => {
            if !same_address(&found.address, &fundraiser_account.key) {
                return Err(FundraiserError::AddressMismatch);
            }
            found.bump
        },
        None => { return Err(FundraiserError::AddressMismatch); },
    };
    let custody = match TokenBalance::unpack(vault.data.as_slice()) {
        Ok(custody) => custody,
        Err(error) => { return Err(error); },
    };
    let destination = match TokenBalance::unpack(maker_ta.data.as_slice()) {
        Ok(destination) => destination,
        Err(error) => { return Err(error); },
    };
    if !same_address(&custody.owner, &fundraiser_account.key) {
        return Err(FundraiserError::AddressMismatch);
    }
    match checker_instruction(
        &fundraiser,
        custody.amount,
        &destination,
        maker.lamports,
        fundraiser_account.lamports,
        now,
    ) {
        Ok(withdrawal) => Ok(
            Closing {
                transfer: Transfer {
                    source: vault.key,
                    destination: maker_ta.key,
                    authority: fundraiser_account.key,
                    amount: withdrawal.amount,
                    seeds: Some(SignerSeeds { maker: maker.key, bump }),
                },
                maker_lamports: withdrawal.maker_lamports,
            },
        ),
        Err(error) => Err(error),
    }
}

/// Decides a sweep: derives the authority of the maker in the first account
/// and decides as [`check_contributions_spec`] says.
pub fn check_contributions(
    program_id: &Address,
    accounts: &[Account],
    instruction_data: &[u8],
    now: i64,
) -> (outcome: Result<Closing, FundraiserError>)
    ensures
        closing_view(outcome) == check_contributions_spec(
            program_id@,
            account_views(accounts@),
            instruction_data@,
            now,
            check_contributions_authority(account_views(accounts@), program_id@),
        ),
{
    let authority = if accounts.len() < 4 {
        None
    } else {
        derive_fundraiser(&accounts[0].key, program_id)
    };
    check_contributions_with(program_id, accounts, instruction_data, now, authority)
}

} // verus!
