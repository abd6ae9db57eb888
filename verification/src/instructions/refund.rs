//! Paying a contributor's deposit back.
use vstd::prelude::*;
use crate::account::{account_views, Account, AccountView};
use crate::address::{same_address, Address};
use crate::authority::{
    authority_view, contributor_authority, derive_contributor, derive_fundraiser,
    fundraiser_authority, Authority,
};
use crate::error::FundraiserError;
use crate::instructions::{derives, is_at};
use crate::lifecycle::refund_spec;
use crate::outcome::{
    booking_view, Booking, BookingView, SignerSeeds, SignerSeedsView, Transfer, TransferView,
};
use crate::state::contributor::Contributor;
use crate::state::fundraiser::{Fundraiser, FundraiserView};
use crate::token::{token_account_well_formed, token_balance, TokenBalance};

verus! {

/// What a refund does, given the accounts `[contributor, maker, fundraiser
/// record, contributor record, contributor's balance, vault]`, an empty
/// payload, the time, and the two addresses that were derived: the
/// fundraiser's from the maker, and the contributor record's from
/// fundraiser and contributor.
///
/// It is refused, in this order: with `NotEnoughAccounts` when fewer than
/// six accounts are supplied; with `InvalidPayload` when the payload is not
/// empty; with `MissingSignature` when the contributor has not signed; with
/// `InvalidRecord` or `RecordNotOwned` when the fundraiser record, or else
/// the contributor record, has the wrong size or does not belong to
/// `program`; with `AddressMismatch` when the maker account is not the
/// recorded maker or either record is not at its derived address; with
/// `InvalidTokenAccount` when the vault or the contributor's balance is no
/// initialised token account; with `AddressMismatch` when the vault is not
/// controlled by the fundraiser's address; and then as [`refund_spec`] says.
/// Otherwise the contributor's whole deposit is to be moved from the vault
/// to the contributor's balance on the derived authority, and both records
/// are to be stored with the deposit taken off.
pub open spec fn refund_accounts_spec(
    program: Seq<u8>,
    accounts: Seq<AccountView>,
    data: Seq<u8>,
    now: i64,
    authority: Option<(Seq<u8>, u8)>,
    record_authority: Option<(Seq<u8>, u8)>,
) -> Result<BookingView, FundraiserError> {
    if accounts.len() < 6 {
        Err(FundraiserError::NotEnoughAccounts)
    } else if data.len() != 0 {
        Err(FundraiserError::InvalidPayload)
    } else if !accounts[0].is_signer {
        Err(FundraiserError::MissingSignature)
    } else if accounts[2].data.len() != 89 {
        Err(FundraiserError::InvalidRecord)
    } else if accounts[2].owner != program {
        Err(FundraiserError::RecordNotOwned)
    } else if accounts[3].data.len() != 8 {
        Err(FundraiserError::InvalidRecord)
    } else if accounts[3].owner != program {
        Err(FundraiserError::RecordNotOwned)
    } else if accounts[1].key != FundraiserView::parse(accounts[2].data).maker || !derives(
        authority,
        accounts[2].key,
    ) || !derives(record_authority, accounts[3].key) {
        Err(FundraiserError::AddressMismatch)
    } else if !token_account_well_formed(accounts[5].data) || !token_account_well_formed(
        accounts[4].data,
    ) {
        Err(FundraiserError::InvalidTokenAccount)
    } else if token_balance(accounts[5].data).owner != accounts[2].key {
        Err(FundraiserError::AddressMismatch)
    } else {
        match refund_spec(
            FundraiserView::parse(accounts[2].data),
            Contributor::parse(accounts[3].data),
            token_balance(accounts[5].data).amount,
            token_balance(accounts[4].data),
            now,
        ) {
            Ok(repayment) => Ok(
                BookingView {
                    transfer: TransferView {
                        source: accounts[5].key,
                        destination: accounts[4].key,
                        authority: accounts[2].key,
                        amount: repayment.amount,
                        seeds: Some(
                            SignerSeedsView { maker: accounts[1].key, bump: authority.unwrap().1 },
                        ),
                    },
                    fundraiser: repayment.fundraiser,
                    contributor: repayment.contributor,
                },
            ),
            Err(error) => Err(error),
        }
    }
}

/// The fundraiser authority that a refund derives: that of the maker in the
/// second account, under `program`.
pub open spec fn refund_authority(accounts: Seq<AccountView>, program: Seq<u8>) -> Option<
    (Seq<u8>, u8),
> {
    if accounts.len() < 6 {
        None
    } else {
        fundraiser_authority(accounts[1].key, program)
    }
}

/// The record address that a refund derives: that of the contributor in the
/// first account with the fundraiser in the third, under `program`.
pub open spec fn refund_record_authority(accounts: Seq<AccountView>, program: Seq<u8>) -> Option<
    (Seq<u8>, u8),
> {
    if accounts.len() < 6 {
        None
    } else {
        contributor_authority(accounts[2].key, accounts[0].key, program)
    }
}

/// Decides a refund, given what the two derivations produced.
pub fn refund_with(
    program_id: &Address,
    accounts: &[Account],
    instruction_data: &[u8],
    now: i64,
    authority: Option<Authority>,
    record_authority: Option<Authority>,
) -> (outcome: Result<Booking, FundraiserError>)
    ensures
        booking_view(outcome) == refund_accounts_spec(
            program_id@,
            account_views(accounts@),
            instruction_data@,
            now,
            authority_view(authority),
            authority_view(record_authority),
        ),
{
    if accounts.len() < 6 {
        return Err(FundraiserError::NotEnoughAccounts);
    }
    if instruction_data.len() != 0 {
        return Err(FundraiserError::InvalidPayload);
    }
    let signer = &accounts[0];
    let maker = &accounts[1];
    let fundraiser_account = &accounts[2];
    let contributor_account = &accounts[3];
    let contributor_ta = &accounts[4];
    let vault = &accounts[5];
    if !signer.is_signer {
        return Err(FundraiserError::MissingSignature);
    }
    let fundraiser = match Fundraiser::from_account_info(fundraiser_account, program_id) {
        Ok(fundraiser) => fundraiser,
        Err(error) => { return Err(error); },
    };
    let contributor = match Contributor::from_account_info(contributor_account, program_id) {
        Ok(contributor) => contributor,
        Err(error) => { return Err(error); },
    };
    if !same_address(&maker.key, &fundraiser.maker) {
        return Err(FundraiserError::AddressMismatch);
    }
    let bump = match authority {
        Some(found) => {
            if !same_address(&found.address, &fundraiser_account.key) {
                return Err(FundraiserError::AddressMismatch);
            }
            found.bump
        },
        None => { return Err(FundraiserError::AddressMismatch); },
    };
    if !is_at(&record_authority, &contributor_account.key) {
        return Err(FundraiserError::AddressMismatch);
    }
    let custody = match TokenBalance::unpack(vault.data.as_slice()) {
        Ok(custody) => custody,
        Err(error) => { return Err(error); },
    };
    let destination = match TokenBalance::unpack(contributor_ta.data.as_slice()) {
        Ok(destination) => destination,
        Err(error) => { return Err(error); },
    };
    if !same_address(&custody.owner, &fundraiser_account.key) {
        return Err(FundraiserError::AddressMismatch);
    }
    match crate::lifecycle::refund_instruction(
        &fundraiser,
        &contributor,
        custody.amount,
        &destination,
        now,
    ) {
        Ok(repayment) => Ok(
            Booking {
                transfer: Transfer {
                    source: vault.key,
                    destination: contributor_ta.key,
                    authority: fundraiser_account.key,
                    amount: repayment.amount,
                    seeds: Some(SignerSeeds { maker: maker.key, bump }),
                },
                fundraiser: repayment.fundraiser,
                contributor: repayment.contributor,
            },
        ),
        Err(error) => Err(error),
    }
}

/// Decides a refund: derives the fundraiser's address from the maker in the
/// second account, and the contributor record's address from fundraiser and
/// contributor, and decides as [`refund_accounts_spec`] says.
pub fn refund_instruction(
    program_id: &Address,
    accounts: &[Account],
    instruction_data: &[u8],
    now: i64,
) -> (outcome: Result<Booking, FundraiserError>)
    ensures
        booking_view(outcome) == refund_accounts_spec(
            program_id@,
            account_views(accounts@),
            instruction_data@,
            now,
            refund_authority(account_views(accounts@), program_id@),
            refund_record_authority(account_views(accounts@), program_id@),
        ),
{
    if accounts.len() < 6 {
        return refund_with(program_id, accounts, instruction_data, now, None, None);
    }
    let authority = derive_fundraiser(&accounts[1].key, program_id);
    let record_authority = derive_contributor(&accounts[2].key, &accounts[0].key, program_id);
    refund_with(program_id, accounts, instruction_data, now, authority, record_authority)
}

} // verus!
