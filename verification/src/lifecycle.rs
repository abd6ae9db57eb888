//! The rules of a fundraiser's life: who may deposit, sweep and reclaim,
//! when, and what each operation does to the books.
//!
//! The functions here decide on values that have already been read and
//! authenticated. They move no funds themselves: each says how many units
//! the custody transfer must move and what the records are afterwards.
use vstd::prelude::*;
use crate::address::same_address;
use crate::error::FundraiserError;
use crate::state::contributor::Contributor;
use crate::state::fundraiser::{Fundraiser, FundraiserView};
use crate::token::{TokenBalance, TokenBalanceView};

verus! {

/// The books after a deposit.
#[derive(Clone, Copy, Debug, PartialEq, Eq)]
pub struct Deposit {
    /// The fundraiser record, credited.
    pub fundraiser: Fundraiser,
    /// The contributor's record, credited.
    pub contributor: Contributor,
}

/// The mathematical content of a [`Deposit`].
pub struct DepositView {
    pub fundraiser: FundraiserView,
    pub contributor: Contributor,
}

impl View for Deposit {
    type V = DepositView;

    open spec fn view(&self) -> DepositView {
        DepositView { fundraiser: self.fundraiser@, contributor: self.contributor }
    }
}

/// What a sweep moves: the vault's whole balance to the maker, and the
/// record's storage allowance with it.
#[derive(Clone, Copy, Debug, PartialEq, Eq, Structural)]
pub struct Withdrawal {
    /// Units to move from the vault to the maker.
    pub amount: u64,
    /// The maker's storage allowance once the record's has been added.
    pub maker_lamports: u64,
}

/// What a refund moves, and the books afterwards.
#[derive(Clone, Copy, Debug, PartialEq, Eq)]
pub struct Repayment {
    /// Units to move from the vault back to the contributor.
    pub amount: u64,
    /// The fundraiser record, debited.
    pub fundraiser: Fundraiser,
    /// The contributor's record, emptied.
    pub contributor: Contributor,
}

/// The mathematical content of a [`Repayment`].
pub struct RepaymentView {
    pub amount: u64,
    pub fundraiser: FundraiserView,
    pub contributor: Contributor,
}

impl View for Repayment {
    type V = RepaymentView;

    open spec fn view(&self) -> RepaymentView {
        RepaymentView {
            amount: self.amount,
            fundraiser: self.fundraiser@,
            contributor: self.contributor,
        }
    }
}

/// The view of a deposit that may have been refused.
pub open spec fn deposit_view(outcome: Result<Deposit, FundraiserError>) -> Result<
    DepositView,
    FundraiserError,
> {
    match outcome {
        Ok(deposit) => Ok(deposit@),
        Err(error) => Err(error),
    }
}

/// The view of a refund that may have been refused.
pub open spec fn repayment_view(outcome: Result<Repayment, FundraiserError>) -> Result<
    RepaymentView,
    FundraiserError,
> {
    match outcome {
        Ok(repayment) => Ok(repayment@),
        Err(error) => Err(error),
    }
}

/// Whether the maker may sweep at time `now`: the deadline has come or the
/// target has been reached.
pub open spec fn sweep_eligible(fundraiser: FundraiserView, now: i64) -> bool {
    now >= fundraiser.time_ending || fundraiser.current_amount >= fundraiser.amount_to_raise
}

/// Whether contributors may reclaim their deposits at time `now`: the
/// deadline has come and the target was missed.
pub open spec fn refund_eligible(fundraiser: FundraiserView, now: i64) -> bool {
    now >= fundraiser.time_ending && fundraiser.current_amount < fundraiser.amount_to_raise
}

/// What a deposit of `amount` at time `now` does, paid from the balance
/// `source`.
///
/// It is refused, in this order: with `InvalidAmount` when `amount` is zero;
/// with `CampaignEnded` when the deadline has passed; with `AssetMismatch`
/// when `source` holds another asset; with `InsufficientFunds` when `source`
/// holds less than `amount`; with `ArithmeticOverflow` when either running
/// total would leave 64 bits. Otherwise both totals grow by `amount`. The
/// target is no cap.
pub open spec fn contribute_spec(
    fundraiser: FundraiserView,
    contributor: Contributor,
    source: TokenBalanceView,
    amount: u64,
    now: i64,
) -> Result<DepositView, FundraiserError> {
    if amount == 0 {
        Err(FundraiserError::InvalidAmount)
    } else if now > fundraiser.time_ending {
        Err(FundraiserError::CampaignEnded)
    } else if source.mint != fundraiser.mint_to_raise {
        Err(FundraiserError::AssetMismatch)
    } else if source.amount < amount {
        Err(FundraiserError::InsufficientFunds)
    } else if fundraiser.current_amount + amount > u64::MAX || contributor.amount + amount
        > u64::MAX {
        Err(FundraiserError::ArithmeticOverflow)
    } else {
        Ok(
            DepositView {
                fundraiser: FundraiserView {
                    current_amount: (fundraiser.current_amount + amount) as u64,
                    ..fundraiser
                },
                contributor: Contributor { amount: (contributor.amount + amount) as u64 },
            },
        )
    }
}

/// What a sweep at time `now` does, with `custody` units in the vault, paid
/// into the balance `destination`; the maker holds a storage allowance of
/// `maker_lamports` and the record one of `record_lamports`.
///
/// It is refused, in this order: with `CampaignNotEligible` when neither the
/// deadline has come nor the target been reached; with `AssetMismatch` when
/// `destination` holds another asset; with `InsufficientFunds` when the
/// vault is empty; with `ArithmeticOverflow` when the two storage allowances
/// do not fit in 64 bits together. Otherwise the whole vault goes to the
/// maker, and the record's allowance with it.
pub open spec fn checker_spec(
    fundraiser: FundraiserView,
    custody: u64,
    destination: TokenBalanceView,
    maker_lamports: u64,
    record_lamports: u64,
    now: i64,
) -> Result<Withdrawal, FundraiserError> {
    if !sweep_eligible(fundraiser, now) {
        Err(FundraiserError::CampaignNotEligible)
    } else if destination.mint != fundraiser.mint_to_raise {
        Err(FundraiserError::AssetMismatch)
    } else if custody == 0 {
        Err(FundraiserError::InsufficientFunds)
    } else if maker_lamports + record_lamports > u64::MAX {
        Err(FundraiserError::ArithmeticOverflow)
    } else {
        Ok(
            Withdrawal {
                amount: custody,
                maker_lamports: (maker_lamports + record_lamports) as u64,
            },
        )
    }
}

/// What a refund at time `now` does, with `custody` units in the vault, paid
/// into the balance `destination`.
///
/// It is refused, in this order: with `NothingToRefund` when the contributor
/// has nothing on deposit; with `CampaignStillOpenOrSucceeded` unless the
/// deadline has come and the target was missed; with `AssetMismatch` when
/// `destination` holds another asset; with `InsufficientFunds` when the
/// vault holds less than the deposit; with `ArithmeticUnderflow` when the
/// raised total is less than the deposit. Otherwise the whole deposit goes
/// back, the raised total shrinks by it, and the deposit is zero.
pub open spec fn refund_spec(
    fundraiser: FundraiserView,
    contributor: Contributor,
    custody: u64,
    destination: TokenBalanceView,
    now: i64,
) -> Result<RepaymentView, FundraiserError> {
    if contributor.amount == 0 {
        Err(FundraiserError::NothingToRefund)
    } else if !refund_eligible(fundraiser, now) {
        Err(FundraiserError::CampaignStillOpenOrSucceeded)
    } else if destination.mint != fundraiser.mint_to_raise {
        Err(FundraiserError::AssetMismatch)
    } else if custody < contributor.amount {
        Err(FundraiserError::InsufficientFunds)
    } else if fundraiser.current_amount < contributor.amount {
        Err(FundraiserError::ArithmeticUnderflow)
    } else {
        Ok(
            RepaymentView {
                amount: contributor.amount,
                fundraiser: FundraiserView {
                    current_amount: (fundraiser.current_amount - contributor.amount) as u64,
                    ..fundraiser
                },
                contributor: Contributor { amount: 0 },
            },
        )
    }
}

/// Decides a deposit of `amount` at time `now`, to be paid from `source`.
pub fn contribute_instruction(
    fundraiser: &Fundraiser,
    contributor: &Contributor,
    source: &TokenBalance,
    amount: u64,
    now: i64,
) -> (outcome: Result<Deposit, FundraiserError>)
    ensures
        deposit_view(outcome) == contribute_spec(fundraiser@, *contributor, source@, amount, now),
        amount == 0 ==> outcome == Err::<Deposit, _>(FundraiserError::InvalidAmount),
        amount > 0 && now > fundraiser.time_ending ==> outcome == Err::<Deposit, _>(
            FundraiserError::CampaignEnded,
        ),
{
    if amount == 0 {
        return Err(FundraiserError::InvalidAmount);
    }
    if now > fundraiser.time_ending {
        return Err(FundraiserError::CampaignEnded);
    }
    if !same_address(&source.mint, &fundraiser.mint_to_raise) {
        return Err(FundraiserError::AssetMismatch);
    }
    if source.amount < amount {
        return Err(FundraiserError::InsufficientFunds);
    }
    let raised = match fundraiser.current_amount.checked_add(amount) {
        Some(raised) => raised,
        None => { return Err(FundraiserError::ArithmeticOverflow); },
    };
    let deposited = match contributor.amount.checked_add(amount) {
        Some(deposited) => deposited,
        None => { return Err(FundraiserError::ArithmeticOverflow); },
    };
    Ok(
        Deposit {
            fundraiser: Fundraiser {
                maker: fundraiser.maker,
                mint_to_raise: fundraiser.mint_to_raise,
                amount_to_raise: fundraiser.amount_to_raise,
                current_amount: raised,
                time_ending: fundraiser.time_ending,
                bump: fundraiser.bump,
            },
            contributor: Contributor { amount: deposited },
        },
    )
}

/// Decides a sweep at time `now`.
pub fn checker_instruction(
    fundraiser: &Fundraiser,
    custody: u64,
    destination: &TokenBalance,
    maker_lamports: u64,
    record_lamports: u64,
    now: i64,
) -> (outcome: Result<Withdrawal, FundraiserError>)
    ensures
        outcome == checker_spec(
            fundraiser@,
            custody,
            destination@,
            maker_lamports,
            record_lamports,
            now,
        ),
        outcome matches Ok(withdrawal) ==> withdrawal.amount == custody,
{
    if now < fundraiser.time_ending && fundraiser.current_amount < fundraiser.amount_to_raise {
        return Err(FundraiserError::CampaignNotEligible);
    }
    if !same_address(&destination.mint, &fundraiser.mint_to_raise) {
        return Err(FundraiserError::AssetMismatch);
    }
    if custody == 0 {
        return Err(FundraiserError::InsufficientFunds);
    }
    match maker_lamports.checked_add(record_lamports) {
        Some(lamports) => Ok(Withdrawal { amount: custody, maker_lamports: lamports }),
        None => Err(FundraiserError::ArithmeticOverflow),
    }
}

/// Decides a refund at time `now`.
pub fn refund_instruction(
    fundraiser: &Fundraiser,
    contributor: &Contributor,
    custody: u64,
    destination: &TokenBalance,
    now: i64,
) -> (outcome: Result<Repayment, FundraiserError>)
    ensures
        repayment_view(outcome) == refund_spec(
            fundraiser@,
            *contributor,
            custody,
            destination@,
            now,
        ),
        contributor.amount == 0 ==> outcome == Err::<Repayment, _>(
            FundraiserError::NothingToRefund,
        ),
        outcome matches Ok(repayment) ==> repayment.amount == contributor.amount
            && repayment.contributor.amount == 0 && repayment.fundraiser.current_amount
            == fundraiser.current_amount - contributor.amount,
{
    if contributor.amount == 0 {
        return Err(FundraiserError::NothingToRefund);
    }
    if now < fundraiser.time_ending || fundraiser.current_amount >= fundraiser.amount_to_raise {
        return Err(FundraiserError::CampaignStillOpenOrSucceeded);
    }
    if !same_address(&destination.mint, &fundraiser.mint_to_raise) {
        return Err(FundraiserError::AssetMismatch);
    }
    if custody < contributor.amount {
        return Err(FundraiserError::InsufficientFunds);
    }
    let raised = match fundraiser.current_amount.checked_sub(contributor.amount) {
        Some(raised) => raised,
        None => { return Err(FundraiserError::ArithmeticUnderflow); },
    };
    Ok(
        Repayment {
            amount: contributor.amount,
            fundraiser: Fundraiser {
                maker: fundraiser.maker,
                mint_to_raise: fundraiser.mint_to_raise,
                amount_to_raise: fundraiser.amount_to_raise,
                current_amount: raised,
                time_ending: fundraiser.time_ending,
                bump: fundraiser.bump,
            },
            contributor: Contributor { amount: 0 },
        },
    )
}

} // verus!
