//! Opening a fundraiser.
use vstd::prelude::*;
use crate::account::{account_views, Account, AccountView};
use crate::address::{all_zero, is_zeroed, read_address, same_address, Address};
use crate::authority::{authority_view, derive_fundraiser, fundraiser_authority, Authority};
use crate::error::FundraiserError;
use crate::instructions::derives;
use crate::outcome::opening_view;
use crate::state::fundraiser::{Fundraiser, FundraiserView};
use crate::token::{is_recognised_registry, recognised_registry};
use crate::wire::{decode_i64, decode_u64, le_i64, le_u64};

verus! {

/// Number of bytes in the payload of an opening: target and deadline.
pub const OPEN_PAYLOAD_BYTES: usize = 16;

/// Number of bytes in the long payload of an opening, which spells out the
/// maker, the asset and the bump seed as well.
pub const LONG_OPEN_PAYLOAD_BYTES: usize = 81;

/// What an opening does, given the accounts `[maker, record, asset]`, a
/// payload of target (8 bytes, little-endian) and deadline (8 bytes,
/// little-endian, signed), and the authority that was derived for the maker.
///
/// It is refused, in this order: with `NotEnoughAccounts` when fewer than
/// three accounts are supplied; with `InvalidPayload` when the payload is not
/// 16 bytes; with `MissingSignature` when the maker has not signed; with
/// `InvalidAssetRegistry` when the asset is not owned by a recognised token
/// program; with `AccountNotEmpty` when the record account is not writable
/// or holds anything but zeros; with `AddressMismatch` when the record
/// account is not at the derived address. Otherwise the record of the new
/// fundraiser is to be stored, in exactly 89 bytes, with nothing raised and
/// the derived bump seed.
pub open spec fn initialize_spec(
    accounts: Seq<AccountView>,
    data: Seq<u8>,
    authority: Option<(Seq<u8>, u8)>,
) -> Result<FundraiserView, FundraiserError> {
    if accounts.len() < 3 {
        Err(FundraiserError::NotEnoughAccounts)
    } else if data.len() != 16 {
        Err(FundraiserError::InvalidPayload)
    } else if !accounts[0].is_signer {
        Err(FundraiserError::MissingSignature)
    } else if !recognised_registry(accounts[2].owner) {
        Err(FundraiserError::InvalidAssetRegistry)
    } else if !accounts[1].is_writable || !all_zero(accounts[1].data) {
        Err(FundraiserError::AccountNotEmpty)
    } else if !derives(authority, accounts[1].key) {
        Err(FundraiserError::AddressMismatch)
    } else {
        Ok(
            FundraiserView::opened(
                accounts[0].key,
                accounts[2].key,
                le_u64(data.subrange(0, 8)),
                le_i64(data.subrange(8, 16)),
                authority.unwrap().1,
            ),
        )
    }
}

/// The authority that an opening derives: that of the maker in the first
/// account, under `program`.
pub open spec fn initialize_authority(accounts: Seq<AccountView>, program: Seq<u8>) -> Option<
    (Seq<u8>, u8),
> {
    if accounts.len() < 3 {
        None
    } else {
        fundraiser_authority(accounts[0].key, program)
    }
}

/// Opens a fundraiser, given what the derivation for the maker produced.
pub fn process_initialize_with(
    accounts: &[Account],
    instruction_data: &[u8],
    authority: Option<Authority>,
) -> (outcome: Result<Fundraiser, FundraiserError>)
    ensures
        opening_view(outcome) == initialize_spec(
            account_views(accounts@),
            instruction_data@,
            authority_view(authority),
        ),
{
    if accounts.len() < 3 {
        return Err(FundraiserError::NotEnoughAccounts);
    }
    if instruction_data.len() != 16 {
        return Err(FundraiserError::InvalidPayload);
    }
    let maker = &accounts[0];
    let record = &accounts[1];
    let asset = &accounts[2];
    if !maker.is_signer {
        return Err(FundraiserError::MissingSignature);
    }
    if !is_recognised_registry(&asset.owner) {
        return Err(FundraiserError::InvalidAssetRegistry);
    }
    if !record.is_writable || !is_zeroed(record.data.as_slice()) {
        return Err(FundraiserError::AccountNotEmpty);
    }
    let bump = match authority {
        Some(found) => {
            if !same_address(&found.address, &record.key) {
                return Err(FundraiserError::AddressMismatch);
            }
            found.bump
        },
        None => { return Err(FundraiserError::AddressMismatch); },
    };
    let amount_to_raise = decode_u64(instruction_data, 0);
    let time_ending = decode_i64(instruction_data, 8);
    Ok(Fundraiser::init(maker.key, asset.key, amount_to_raise, time_ending, bump))
}

/// Opens a fundraiser: derives the authority of the maker in the first
/// account and decides as [`initialize_spec`] says.
pub fn process_initialize(
    program_id: &Address,
    accounts: &[Account],
    instruction_data: &[u8],
) -> (outcome: Result<Fundraiser, FundraiserError>)
    ensures
        opening_view(outcome) == initialize_spec(
            account_views(accounts@),
            instruction_data@,
            initialize_authority(account_views(accounts@), program_id@),
        ),
{
    let authority = if accounts.len() < 3 {
        None
    } else {
        derive_fundraiser(&accounts[0].key, program_id)
    };
    process_initialize_with(accounts, instruction_data, authority)
}

/// The record that a long opening payload spells out: target (8 bytes,
/// little-endian), deadline (8 bytes, little-endian, signed), maker (32),
/// asset (32), bump seed (1). Nothing has been raised.
pub open spec fn long_payload_record(data: Seq<u8>) -> FundraiserView
    recommends
        data.len() == 81,
{
    FundraiserView::opened(
        data.subrange(16, 48),
        data.subrange(48, 80),
        le_u64(data.subrange(0, 8)),
        le_i64(data.subrange(8, 16)),
        data[80],
    )
}

/// Reads the record of a new fundraiser from a long opening payload,
/// taking the caller's word for maker, asset and bump seed. Exactly the
/// payloads of 81 bytes are read.
pub fn initialize_fundraiser(data: &[u8]) -> (outcome: Result<Fundraiser, FundraiserError>)
    ensures
        outcome is Ok <==> data@.len() == 81,
        outcome matches Ok(record) ==> record@ == long_payload_record(data@),
        outcome matches Err(error) ==> error == FundraiserError::InvalidPayload,
{
    if data.len() != 81 {
        return Err(FundraiserError::InvalidPayload);
    }
    let amount_to_raise = decode_u64(data, 0);
    let time_ending = decode_i64(data, 8);
    let maker = read_address(data, 16);
    let mint_to_raise = read_address(data, 48);
    Ok(Fundraiser::init(maker, mint_to_raise, amount_to_raise, time_ending, data[80]))
}

} // verus!
