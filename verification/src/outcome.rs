//! What an accepted operation asks of the host: the custody transfer to
//! perform, and the records to store once it has succeeded.
use vstd::prelude::*;
use crate::account::{account_views, Account, AccountView};
use crate::address::Address;
use crate::authority::{fundraiser_tag, fundraiser_tag_bytes};
use crate::error::FundraiserError;
use crate::state::contributor::Contributor;
use crate::state::fundraiser::{Fundraiser, FundraiserView};

verus! {

/// The seeds with which the program signs for a fundraiser's derived
/// address: the namespace tag, the maker's address and the bump seed.
#[derive(Clone, Copy, Debug, PartialEq, Eq)]
pub struct SignerSeeds {
    /// The maker whose fundraiser signs.
    pub maker: Address,
    /// The bump seed of the derivation.
    pub bump: u8,
}

/// The mathematical content of [`SignerSeeds`].
pub struct SignerSeedsView {
    pub maker: Seq<u8>,
    pub bump: u8,
}

impl View for SignerSeeds {
    type V = SignerSeedsView;

    open spec fn view(&self) -> SignerSeedsView {
        SignerSeedsView { maker: self.maker@, bump: self.bump }
    }
}

impl SignerSeedsView {
    /// The three seeds, in the order in which they are hashed.
    pub open spec fn seeds(self) -> Seq<Seq<u8>> {
        seq![fundraiser_tag(), self.maker, seq![self.bump]]
    }
}

impl SignerSeeds {
    /// The three seeds, in the order in which they are hashed.
    pub fn to_vec(&self) -> (seeds: Vec<Vec<u8>>)
        ensures
            seeds@.map_values(|seed: Vec<u8>| seed@) == self@.seeds(),
    {
        let mut tag: Vec<u8> = Vec::new();
        tag.extend_from_slice(fundraiser_tag_bytes().as_slice());
        let mut maker: Vec<u8> = Vec::new();
        maker.extend_from_slice(self.maker.as_slice());
        let mut bump: Vec<u8> = Vec::new();
        bump.push(self.bump);
        assert(tag@ =~= fundraiser_tag() && maker@ =~= self.maker@ && bump@ =~= seq![self.bump]);
        let mut seeds: Vec<Vec<u8>> = Vec::new();
        seeds.push(tag);
        seeds.push(maker);
        seeds.push(bump);
        seeds
    }
}

/// A custody transfer for the host to perform.
#[derive(Clone, Copy, Debug, PartialEq, Eq)]
pub struct Transfer {
    /// The balance that pays.
    pub source: Address,
    /// The balance that receives.
    pub destination: Address,
    /// Who authorises the transfer: the contributor for a deposit, the
    /// fundraiser's derived address for a sweep or a refund.
    pub authority: Address,
    /// Units to move.
    pub amount: u64,
    /// The seeds with which the program signs for the derived address;
    /// `None` where the authority signs for itself.
    pub seeds: Option<SignerSeeds>,
}

/// The mathematical content of a [`Transfer`].
pub struct TransferView {
    pub source: Seq<u8>,
    pub destination: Seq<u8>,
    pub authority: Seq<u8>,
    pub amount: u64,
    pub seeds: Option<SignerSeedsView>,
}

impl View for Transfer {
    type V = TransferView;

    open spec fn view(&self) -> TransferView {
        TransferView {
            source: self.source@,
            destination: self.destination@,
            authority: self.authority@,
            amount: self.amount,
            seeds: match self.seeds {
                Some(seeds) => Some(seeds@),
                None => None,
            },
        }
    }
}

/// What a deposit or a refund asks of the host: a transfer, and the two
/// records to store once it has succeeded.
#[derive(Clone, Copy, Debug, PartialEq, Eq)]
pub struct Booking {
    /// The transfer to perform first.
    pub transfer: Transfer,
    /// The fundraiser record to store.
    pub fundraiser: Fundraiser,
    /// The contributor record to store.
    pub contributor: Contributor,
}

/// The mathematical content of a [`Booking`].
pub struct BookingView {
    pub transfer: TransferView,
    pub fundraiser: FundraiserView,
    pub contributor: Contributor,
}

impl View for Booking {
    type V = BookingView;

    open spec fn view(&self) -> BookingView {
        BookingView {
            transfer: self.transfer@,
            fundraiser: self.fundraiser@,
            contributor: self.contributor,
        }
    }
}

/// What a sweep asks of the host: a transfer of the whole vault, after
/// which the fundraiser record is filled with zeros and its storage
/// allowance handed to the maker.
#[derive(Clone, Copy, Debug, PartialEq, Eq)]
pub struct Closing {
    /// The transfer to perform first.
    pub transfer: Transfer,
    /// The maker's storage allowance afterwards; the record's is zero.
    pub maker_lamports: u64,
}

/// The mathematical content of a [`Closing`].
pub struct ClosingView {
    pub transfer: TransferView,
    pub maker_lamports: u64,
}

impl View for Closing {
    type V = ClosingView;

    open spec fn view(&self) -> ClosingView {
        ClosingView { transfer: self.transfer@, maker_lamports: self.maker_lamports }
    }
}

/// The view of an opening that may have been refused.
pub open spec fn opening_view(outcome: Result<Fundraiser, FundraiserError>) -> Result<
    FundraiserView,
    FundraiserError,
> {
    match outcome {
        Ok(record) => Ok(record@),
        Err(error) => Err(error),
    }
}

/// The view of a booking that may have been refused.
pub open spec fn booking_view(outcome: Result<Booking, FundraiserError>) -> Result<
    BookingView,
    FundraiserError,
> {
    match outcome {
        Ok(booking) => Ok(booking@),
        Err(error) => Err(error),
    }
}

/// The view of a closing that may have been refused.
pub open spec fn closing_view(outcome: Result<Closing, FundraiserError>) -> Result<
    ClosingView,
    FundraiserError,
> {
    match outcome {
        Ok(closing) => Ok(closing@),
        Err(error) => Err(error),
    }
}

/// What an accepted operation asks of the host.
#[derive(Clone, Copy, Debug, PartialEq, Eq)]
pub enum Outcome {
    /// Store the record of a new fundraiser, in exactly 89 bytes.
    Initialized(Fundraiser),
    /// Perform a deposit's transfer, then store both records.
    Contributed(Booking),
    /// Perform a sweep's transfer, then close the fundraiser.
    Swept(Closing),
    /// Perform a refund's transfer, then store both records.
    Refunded(Booking),
}

/// The mathematical content of an [`Outcome`].
pub enum OutcomeView {
    Initialized(FundraiserView),
    Contributed(BookingView),
    Swept(ClosingView),
    Refunded(BookingView),
}

impl View for Outcome {
    type V = OutcomeView;

    open spec fn view(&self) -> OutcomeView {
        match self {
            Outcome::Initialized(record) => OutcomeView::Initialized(record@),
            Outcome::Contributed(booking) => OutcomeView::Contributed(booking@),
            Outcome::Swept(closing) => OutcomeView::Swept(closing@),
            Outcome::Refunded(booking) => OutcomeView::Refunded(booking@),
        }
    }
}

/// The view of an operation that may have been refused.
pub open spec fn outcome_view(outcome: Result<Outcome, FundraiserError>) -> Result<
    OutcomeView,
    FundraiserError,
> {
    match outcome {
        Ok(done) => Ok(done@),
        Err(error) => Err(error),
    }
}

/// The accounts with the data of the one at `at` replaced.
pub open spec fn stored(accounts: Seq<AccountView>, at: int, data: Seq<u8>) -> Seq<AccountView> {
    accounts.update(at, AccountView { data, ..accounts[at] })
}

/// As many zero bytes as `data` has bytes.
pub open spec fn zeroed(data: Seq<u8>) -> Seq<u8> {
    Seq::new(data.len(), |i: int| 0u8)
}

impl OutcomeView {
    /// How many accounts the operation behind this outcome reads.
    pub open spec fn accounts_read(self) -> nat {
        match self {
            OutcomeView::Initialized(_) => 3,
            OutcomeView::Contributed(_) => 5,
            OutcomeView::Swept(_) => 4,
            OutcomeView::Refunded(_) => 6,
        }
    }

    /// The accounts once the outcome has been committed. An opening stores
    /// its record in the second account. A deposit stores the fundraiser
    /// record in the fourth account and the contributor record in the
    /// second. A sweep fills the fundraiser record in the third account with
    /// zeros, takes its storage allowance away and gives the maker in the
    /// first account the sum. A refund stores the fundraiser record in the
    /// third account and the contributor record in the fourth. Balances are
    /// the token program's to change.
    pub open spec fn committed(self, accounts: Seq<AccountView>) -> Seq<AccountView> {
        match self {
            OutcomeView::Initialized(record) => stored(accounts, 1, record.wire()),
            OutcomeView::Contributed(booking) => stored(
                stored(accounts, 3, booking.fundraiser.wire()),
                1,
                booking.contributor.wire(),
            ),
            OutcomeView::Swept(closing) => accounts.update(
                2,
                AccountView { data: zeroed(accounts[2].data), lamports: 0, ..accounts[2] },
            ).update(0, AccountView { lamports: closing.maker_lamports, ..accounts[0] }),
            OutcomeView::Refunded(booking) => stored(
                stored(accounts, 2, booking.fundraiser.wire()),
                3,
                booking.contributor.wire(),
            ),
        }
    }
}

impl Outcome {
    /// The custody transfer that the host must perform before the outcome
    /// is committed; an opening needs none.
    pub fn transfer(&self) -> (transfer: Option<Transfer>)
        ensures
            transfer == match *self {
                Outcome::Initialized(_) => None,
                Outcome::Contributed(booking) => Some(booking.transfer),
                Outcome::Swept(closing) => Some(closing.transfer),
                Outcome::Refunded(booking) => Some(booking.transfer),
            },
    {
        match self {
            Outcome::Initialized(_) => None,
            Outcome::Contributed(booking) => Some(booking.transfer),
            Outcome::Swept(closing) => Some(closing.transfer),
            Outcome::Refunded(booking) => Some(booking.transfer),
        }
    }

    /// Commits the outcome to the accounts that the operation was handed,
    /// once its transfer has succeeded. With fewer accounts than the
    /// operation reads, nothing is changed.
    pub fn commit(&self, accounts: &mut Vec<Account>) -> (done: Result<(), FundraiserError>)
        ensures
            done is Ok <==> old(accounts)@.len() >= self@.accounts_read(),
            done is Ok ==> account_views(final(accounts)@) == self@.committed(
                account_views(old(accounts)@),
            ),
            done matches Err(error) ==> error == FundraiserError::NotEnoughAccounts
                && final(accounts)@ == old(accounts)@,
    {
        match self {
            Outcome::Initialized(record) => {
                if accounts.len() < 3 {
                    return Err(FundraiserError::NotEnoughAccounts);
                }
                accounts[1].data = record.to_bytes();
            },
            Outcome::Contributed(booking) => {
                if accounts.len() < 5 {
                    return Err(FundraiserError::NotEnoughAccounts);
                }
                accounts[3].data = booking.fundraiser.to_bytes();
                accounts[1].data = booking.contributor.to_bytes();
            },
            Outcome::Swept(closing) => {
                if accounts.len() < 4 {
                    return Err(FundraiserError::NotEnoughAccounts);
                }
                let blank = zeros(accounts[2].data.len());
                accounts[2].data = blank;
                accounts[2].lamports = 0;
                accounts[0].lamports = closing.maker_lamports;
            },
            Outcome::Refunded(booking) => {
                if accounts.len() < 6 {
                    return Err(FundraiserError::NotEnoughAccounts);
                }
                accounts[2].data = booking.fundraiser.to_bytes();
                accounts[3].data = booking.contributor.to_bytes();
            },
        }
        Ok(())
    }
}

/// A buffer of `len` zero bytes.
pub fn zeros(len: usize) -> (blank: Vec<u8>)
    ensures
        blank@ == Seq::new(len as nat, |i: int| 0u8),
{
    let mut blank: Vec<u8> = Vec::new();
    while blank.len() < len
        invariant
            blank@.len() <= len,
            forall|i: int| 0 <= i < blank@.len() ==> blank@[i] == 0u8,
        decreases len - blank@.len(),
    {
        blank.push(0);
    }
    blank
}

} // verus!
