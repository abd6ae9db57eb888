//! Why an operation was refused.
use vstd::prelude::*;

verus! {

/// Every way an operation on a fundraiser can be refused. A refused
/// operation changes nothing and moves no funds.
#[derive(Clone, Copy, Debug, PartialEq, Eq, Structural)]
pub enum FundraiserError {
    /// The instruction data is empty or its selector byte names no operation.
    InvalidInstruction,
    /// Fewer accounts were supplied than the operation reads.
    NotEnoughAccounts,
    /// The payload does not have the operation's fixed length.
    InvalidPayload,
    /// A record account does not hold a record of the fixed layout.
    InvalidRecord,
    /// A balance account does not hold an initialised token account.
    InvalidTokenAccount,
    /// The party that must authenticate the operation did not sign it.
    MissingSignature,
    /// A record account is not owned by this program.
    RecordNotOwned,
    /// A supplied account is not the one the recomputed derivation names.
    AddressMismatch,
    /// The asset is not governed by a recognised token program.
    InvalidAssetRegistry,
    /// The account that should receive a new fundraiser is already in use.
    AccountNotEmpty,
    /// A contribution of zero was offered.
    InvalidAmount,
    /// The deadline has passed; no more contributions are taken.
    CampaignEnded,
    /// A balance account holds a different asset than the fundraiser raises.
    AssetMismatch,
    /// The paying balance holds less than the amount to move.
    InsufficientFunds,
    /// A running total would exceed sixty-four bits.
    ArithmeticOverflow,
    /// Neither the deadline has passed nor the target been reached.
    CampaignNotEligible,
    /// The contributor has nothing on deposit.
    NothingToRefund,
    /// Refunds are only paid after the deadline of a fundraiser that missed
    /// its target.
    CampaignStillOpenOrSucceeded,
    /// The raised total is smaller than a deposit it should contain.
    ArithmeticUnderflow,
}

} // verus!
