//! The four operations as the host submits them: a selector byte, a
//! fixed-layout payload and an ordered list of accounts.
//!
//! Every operation here reads and authenticates what it is handed, defers
//! to [`crate::lifecycle`] for the decision, and answers with an
//! [`Outcome`]: the custody transfer to perform and the records to store.
//! Nothing is changed in place, so a refused operation, or a transfer that
//! fails afterwards, leaves every account as it was.
use vstd::prelude::*;
use vstd::slice::slice_subrange;
use crate::account::{account_views, Account, AccountView};
use crate::address::{same_address, Address};
use crate::authority::{authority_view, Authority};
use crate::error::FundraiserError;
use crate::instructions::checker::{
    check_contributions, check_contributions_authority, check_contributions_spec,
};
use crate::instructions::contribute::{
    contribute, contribute_accounts_spec, contribute_authority, contribute_record_authority,
};
use crate::instructions::initialize::{initialize_authority, initialize_spec, process_initialize};
use crate::instructions::refund::{
    refund_accounts_spec, refund_authority, refund_instruction, refund_record_authority,
};
use crate::outcome::{outcome_view, Outcome, OutcomeView};

pub mod checker;
pub mod contribute;
pub mod initialize;
pub mod refund;

verus! {

/// The operation that a selector byte names.
#[derive(Clone, Copy, Debug, PartialEq, Eq, Structural)]
pub enum FundraiserInstruction {
    /// Open a fundraiser. Selector 0.
    Initialize,
    /// Deposit into a fundraiser. Selector 1.
    Contribute,
    /// Sweep the vault to the maker and close the fundraiser. Selector 2.
    Checker,
    /// Pay a contributor's deposit back. Selector 3.
    Refund,
}

impl FundraiserInstruction {
    /// The operation that `value` selects, if any.
    pub open spec fn of_selector(value: u8) -> Option<FundraiserInstruction> {
        if value == 0 {
            Some(FundraiserInstruction::Initialize)
        } else if value == 1 {
            Some(FundraiserInstruction::Contribute)
        } else if value == 2 {
            Some(FundraiserInstruction::Checker)
        } else if value == 3 {
            Some(FundraiserInstruction::Refund)
        } else {
            None
        }
    }

    /// The byte that selects this operation.
    pub open spec fn spec_selector(self) -> u8 {
        match self {
            FundraiserInstruction::Initialize => 0,
            FundraiserInstruction::Contribute => 1,
            FundraiserInstruction::Checker => 2,
            FundraiserInstruction::Refund => 3,
        }
    }

    /// Reads a selector byte.
    pub fn try_from(value: u8) -> (read: Result<FundraiserInstruction, FundraiserError>)
        ensures
            read == match FundraiserInstruction::of_selector(value) {
                Some(instruction) => Ok(instruction),
                None => Err(FundraiserError::InvalidInstruction),
            },
    {
        match value {
            0 => Ok(FundraiserInstruction::Initialize),
            1 => Ok(FundraiserInstruction::Contribute),
            2 => Ok(FundraiserInstruction::Checker),
            3 => Ok(FundraiserInstruction::Refund),
            _ => Err(FundraiserError::InvalidInstruction),
        }
    }

    /// The byte that selects this operation.
    pub fn selector(&self) -> (value: u8)
        ensures
            value == self.spec_selector(),
            FundraiserInstruction::of_selector(value) == Some(*self),
    {
        match self {
            FundraiserInstruction::Initialize => 0,
            FundraiserInstruction::Contribute => 1,
            FundraiserInstruction::Checker => 2,
            FundraiserInstruction::Refund => 3,
        }
    }
}

/// Whether a derivation produced the address `key`.
pub open spec fn derives(authority: Option<(Seq<u8>, u8)>, key: Seq<u8>) -> bool {
    authority matches Some(found) && found.0 == key
}

/// Whether a derivation produced the address `key`.
pub fn is_at(authority: &Option<Authority>, key: &Address) -> (at: bool)
    ensures
        at == derives(authority_view(*authority), key@),
{
    match authority {
        Some(found) => same_address(&found.address, key),
        None => false,
    }
}

/// What an instruction does: the first byte of `data` selects the
/// operation, the rest is its payload. Empty data and unknown selectors are
/// refused with `InvalidInstruction`; otherwise the selected operation
/// decides, with the addresses that it derives under `program`.
pub open spec fn process_instruction_spec(
    program: Seq<u8>,
    accounts: Seq<AccountView>,
    data: Seq<u8>,
    now: i64,
) -> Result<OutcomeView, FundraiserError> {
    if data.len() == 0 {
        Err(FundraiserError::InvalidInstruction)
    } else {
        let payload = data.subrange(1, data.len() as int);
        match FundraiserInstruction::of_selector(data[0]) {
            None => Err(FundraiserError::InvalidInstruction),
            Some(FundraiserInstruction::Initialize) => match initialize_spec(
                accounts,
                payload,
                initialize_authority(accounts, program),
            ) {
                Ok(record) => Ok(OutcomeView::Initialized(record)),
                Err(error) => Err(error),
            },
            Some(FundraiserInstruction::Contribute) => match contribute_accounts_spec(
                program,
                accounts,
                payload,
                now,
                contribute_authority(accounts, program),
                contribute_record_authority(accounts, program),
            ) {
                Ok(booking) => Ok(OutcomeView::Contributed(booking)),
                Err(error) => Err(error),
            },
            Some(FundraiserInstruction::Checker) => match check_contributions_spec(
                program,
                accounts,
                payload,
                now,
                check_contributions_authority(accounts, program),
            ) {
                Ok(closing) => Ok(OutcomeView::Swept(closing)),
                Err(error) => Err(error),
            },
            Some(FundraiserInstruction::Refund) => match refund_accounts_spec(
                program,
                accounts,
                payload,
                now,
                refund_authority(accounts, program),
                refund_record_authority(accounts, program),
            ) {
                Ok(booking) => Ok(OutcomeView::Refunded(booking)),
                Err(error) => Err(error),
            },
        }
    }
}

/// Decides an instruction at time `now`.
pub fn process_instruction(
    program_id: &Address,
    accounts: &[Account],
    instruction_data: &[u8],
    now: i64,
) -> (outcome: Result<Outcome, FundraiserError>)
    ensures
        outcome_view(outcome) == process_instruction_spec(
            program_id@,
            account_views(accounts@),
            instruction_data@,
            now,
        ),
{
    if instruction_data.len() == 0 {
        return Err(FundraiserError::InvalidInstruction);
    }
    let instruction = match FundraiserInstruction::try_from(instruction_data[0]) {
        Ok(instruction) => instruction,
        Err(error) => { return Err(error); },
    };
    let payload = slice_subrange(instruction_data, 1, instruction_data.len());
    match instruction {
        FundraiserInstruction::Initialize => match process_initialize(
            program_id,
            accounts,
            payload,
        ) {
            Ok(record) => Ok(Outcome::Initialized(record)),
            Err(error) => Err(error),
        },
        FundraiserInstruction::Contribute => match contribute(program_id, accounts, payload, now) {
            Ok(booking) => Ok(Outcome::Contributed(booking)),
            Err(error) => Err(error),
        },
        FundraiserInstruction::Checker => match check_contributions(
            program_id,
            accounts,
            payload,
            now,
        ) {
            Ok(closing) => Ok(Outcome::Swept(closing)),
            Err(error) => Err(error),
        },
        FundraiserInstruction::Refund => match refund_instruction(
            program_id,
            accounts,
            payload,
            now,
        ) {
            Ok(booking) => Ok(Outcome::Refunded(booking)),
            Err(error) => Err(error),
        },
    }
}


} // verus!
