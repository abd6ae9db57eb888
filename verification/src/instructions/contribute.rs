//! Depositing into a fundraiser.
use vstd::prelude::*;
use crate::account::{account_views, Account, AccountView};
use crate::address::{read_address, same_address, Address};
use crate::authority::{
    authority_view, contributor_authority, derive_contributor, derive_fundraiser,
    fundraiser_authority, Authority,
};
use crate::error::FundraiserError;
use crate::instructions::{derives, is_at};
use crate::lifecycle::{contribute_instruction, contribute_spec};
use crate::outcome::{booking_view, Booking, BookingView, Transfer, TransferView};
use crate::state::contributor::Contributor;
use crate::state::fundraiser::{Fundraiser, FundraiserView};
use crate::token::{token_account_well_formed, token_balance, TokenBalance};
use crate::wire::{decode_u64, le_u64};

verus! {

/// Number of bytes in the payload of a deposit: the amount.
pub const CONTRIBUTE_PAYLOAD_BYTES: usize = 8;

/// What a deposit does, given the accounts `[contributor, contributor
/// record, paying balance, fundraiser record, vault]`, a payload of the
/// amount (8 bytes, little-endian), the time, and the two addresses that
/// were derived: the fundraiser's from its recorded maker, and the
/// contributor record's from fundraiser and contributor.
///
/// It is refused, in this order: with `NotEnoughAccounts` when fewer than
/// five accounts are supplied; with `InvalidPayload` when the payload is not
/// 8 bytes; with `MissingSignature` when the contributor has not signed;
/// with `InvalidRecord` or `RecordNotOwned` when the fundraiser record, or
/// else the contributor record, has the wrong size or does not belong to
/// `program`; with `AddressMismatch` when either record is not at its
/// derived address; with `InvalidTokenAccount` when the vault or the paying
/// balance is no initialised token account; with `AddressMismatch` when the
/// vault is not controlled by the fundraiser's address; and then as
/// [`contribute_spec`] says. Otherwise the amount is to be moved from the
/// paying balance to the vault on the contributor's own authority, and both
/// records are to be stored with the amount added.
pub open spec fn contribute_accounts_spec(
    program: Seq<u8>,
    accounts: Seq<AccountView>,
    data: Seq<u8>,
    now: i64,
    authority: Option<(Seq<u8>, u8)>,
    record_authority: Option<(Seq<u8>, u8)>,
) -> Result<BookingView, FundraiserError> {
    if accounts.len() < 5 {
        Err(FundraiserError::NotEnoughAccounts)
    } else if data.len() != 8 {
        Err(FundraiserError::InvalidPayload)
    } else if !accounts[0].is_signer {
        Err(FundraiserError::MissingSignature)
    } else if accounts[3].data.len() != 89 {
        Err(FundraiserError::InvalidRecord)
    } else if accounts[3].owner != program {
        Err(FundraiserError::RecordNotOwned)
    } else if accounts[1].data.len() != 8 {
        Err(FundraiserError::InvalidRecord)
    } else if accounts[1].owner != program {
        Err(FundraiserError::RecordNotOwned)
    } else if !derives(authority, accounts[3].key) || !derives(record_authority, accounts[1].key) {
        Err(FundraiserError::AddressMismatch)
    } else if !token_account_well_formed(accounts[4].data) || !token_account_well_formed(
        accounts[2].data,
    ) {
        Err(FundraiserError::InvalidTokenAccount)
    } else if token_balance(accounts[4].data).owner != accounts[3].key {
        Err(FundraiserError::AddressMismatch)
    } else {
        match contribute_spec(
            FundraiserView::parse(accounts[3].data),
            Contributor::parse(accounts[1].data),
            token_balance(accounts[2].data),
            le_u64(data),
            now,
        ) {
            Ok(deposit) => Ok(
                BookingView {
                    transfer: TransferView {
                        source: accounts[2].key,
                        destination: accounts[4].key,
                        authority: accounts[0].key,
                        amount: le_u64(data),
                        seeds: None,
                    },
                    fundraiser: deposit.fundraiser,
                    contributor: deposit.contributor,
                },
            ),
            Err(error) => Err(error),
        }
    }
}

/// The fundraiser authority that a deposit derives: that of the maker named
/// in the fundraiser record, under `program`.
pub open spec fn contribute_authority(accounts: Seq<AccountView>, program: Seq<u8>) -> Option<
    (Seq<u8>, u8),
> {
    if accounts.len() < 5 || accounts[3].data.len() != 89 {
        None
    } else {
        fundraiser_authority(accounts[3].data.subrange(0, 32), program)
    }
}

/// The record address that a deposit derives: that of the contributor in
/// the first account with the fundraiser in the fourth, under `program`.
pub open spec fn contribute_record_authority(
    accounts: Seq<AccountView>,
    program: Seq<u8>,
) -> Option<(Seq<u8>, u8)> {
    if accounts.len() < 5 {
        None
    } else {
        contributor_authority(accounts[3].key, accounts[0].key, program)
    }
}

/// Decides a deposit, given what the two derivations produced.
pub fn contribute_with(
    program_id: &Address,
    accounts: &[Account],
    instruction_data: &[u8],
    now: i64,
    authority: Option<Authority>,
    record_authority: Option<Authority>,
) -> (outcome: Result<Booking, FundraiserError>)
    ensures
        booking_view(outcome) == contribute_accounts_spec(
            program_id@,
            account_views(accounts@),
            instruction_data@,
            now,
            authority_view(authority),
            authority_view(record_authority),
        ),
{
    if accounts.len() < 5 {
        return Err(FundraiserError::NotEnoughAccounts);
    }
    if instruction_data.len() != 8 {
        return Err(FundraiserError::InvalidPayload);
    }
    let signer = &accounts[0];
    let contributor_account = &accounts[1];
    let signer_ta = &accounts[2];
    let fundraiser_account = &accounts[3];
    let vault = &accounts[4];
    if !signer.is_signer {
        return Err(FundraiserError::MissingSignature);
    }
    let fundraiser = match Fundraiser::from_account_info(fundraiser_account, program_id) {
        Ok(fundraiser) => fundraiser,
        Err(error) => { return Err(error); },
    };
    let contributor = match Contributor::from_account_info(contributor_account, program_id) {
        Ok(contributor) => contributor,
        Err(error) => { return Err(error); },
    };
    if !is_at(&authority, &fundraiser_account.key) || !is_at(
        &record_authority,
        &contributor_account.key,
    ) {
        return Err(FundraiserError::AddressMismatch);
    }
    let custody = match TokenBalance::unpack(vault.data.as_slice()) {
        Ok(custody) => custody,
        Err(error) => { return Err(error); },
    };
    let source = match TokenBalance::unpack(signer_ta.data.as_slice()) {
        Ok(source) => source,
        Err(error) => { return Err(error); },
    };
    if !same_address(&custody.owner, &fundraiser_account.key) {
        return Err(FundraiserError::AddressMismatch);
    }
    let amount = decode_u64(instruction_data, 0);
    match contribute_instruction(&fundraiser, &contributor, &source, amount, now) {
        Ok(deposit) => Ok(
            Booking {
                transfer: Transfer {
                    source: signer_ta.key,
                    destination: vault.key,
                    authority: signer.key,
                    amount,
                    seeds: None,
                },
                fundraiser: deposit.fundraiser,
                contributor: deposit.contributor,
            },
        ),
        Err(error) => Err(error),
    }
}

/// Decides a deposit: derives the fundraiser's address from the maker named
/// in its record, and the contributor record's address from fundraiser and
/// contributor, and decides as [`contribute_accounts_spec`] says.
pub fn contribute(
    program_id: &Address,
    accounts: &[Account],
    instruction_data: &[u8],
    now: i64,
) -> (outcome: Result<Booking, FundraiserError>)
    ensures
        booking_view(outcome) == contribute_accounts_spec(
            program_id@,
            account_views(accounts@),
            instruction_data@,
            now,
            contribute_authority(account_views(accounts@), program_id@),
            contribute_record_authority(account_views(accounts@), program_id@),
        ),
{
    if accounts.len() < 5 {
        return contribute_with(program_id, accounts, instruction_data, now, None, None);
    }
    let record_authority = derive_contributor(&accounts[3].key, &accounts[0].key, program_id);
    let authority = if accounts[3].data.len() != 89 {
        None
    } else {
        let maker = read_address(accounts[3].data.as_slice(), 0);
        derive_fundraiser(&maker, program_id)
    };
    contribute_with(program_id, accounts, instruction_data, now, authority, record_authority)
}

} // verus!
