//! What holds of a fundraiser's books over its whole life.
use vstd::prelude::*;
use crate::account::AccountView;
use crate::address::all_zero;
use crate::error::FundraiserError;
use crate::instructions::checker::check_contributions_spec;
use crate::instructions::contribute::contribute_accounts_spec;
use crate::instructions::derives;
use crate::instructions::refund::refund_accounts_spec;
use crate::lifecycle::{
    checker_spec, contribute_spec, refund_eligible, refund_spec, DepositView, RepaymentView,
};
use crate::outcome::{zeroed, ClosingView, OutcomeView, SignerSeedsView};
use crate::state::contributor::Contributor;
use crate::state::fundraiser::{lemma_parse_wire, FundraiserView};
use crate::token::{token_balance, TokenBalanceView};
use crate::wire::lemma_u64_le_round_trip;

verus! {

/// One operation on the books of a fundraiser whose contributors are
/// numbered from zero.
pub enum Operation {
    /// Contributor `who` deposits `amount` at time `now` from `source`.
    Contribute { who: int, source: TokenBalanceView, amount: u64, now: i64 },
    /// Contributor `who` reclaims the deposit at time `now` into
    /// `destination`.
    Refund { who: int, destination: TokenBalanceView, now: i64 },
}

/// The books of a fundraiser: its record, one record per contributor, and
/// what its vault holds.
pub struct Books {
    pub fundraiser: FundraiserView,
    pub contributors: Seq<Contributor>,
    pub custody: u64,
}

/// The sum of what the contributors have on deposit.
pub open spec fn total(contributors: Seq<Contributor>) -> int
    decreases contributors.len(),
{
    if contributors.len() == 0 {
        0
    } else {
        total(contributors.drop_last()) + contributors.last().amount
    }
}

impl Books {
    /// The raised total is the sum of the deposits.
    pub open spec fn balanced(self) -> bool {
        self.fundraiser.current_amount == total(self.contributors)
    }

    /// The vault holds at least what has been raised.
    pub open spec fn covered(self) -> bool {
        self.custody >= self.fundraiser.current_amount
    }

    /// The books after one operation and its custody transfer, or `None`
    /// where the operation is refused, names no contributor, or asks for a
    /// transfer that the vault cannot take.
    pub open spec fn step(self, operation: Operation) -> Option<Books> {
        match operation {
            Operation::Contribute { who, source, amount, now } => {
                if 0 <= who < self.contributors.len() && self.custody + amount <= u64::MAX {
                    match contribute_spec(
                        self.fundraiser,
                        self.contributors[who],
                        source,
                        amount,
                        now,
                    ) {
                        Ok(deposit) => Some(
                            Books {
                                fundraiser: deposit.fundraiser,
                                contributors: self.contributors.update(who, deposit.contributor),
                                custody: (self.custody + amount) as u64,
                            },
                        ),
                        Err(_) => None,
                    }
                } else {
                    None
                }
            },
            Operation::Refund { who, destination, now } => {
                if 0 <= who < self.contributors.len() {
                    match refund_spec(
                        self.fundraiser,
                        self.contributors[who],
                        self.custody,
                        destination,
                        now,
                    ) {
                        Ok(repayment) => Some(
                            Books {
                                fundraiser: repayment.fundraiser,
                                contributors: self.contributors.update(who, repayment.contributor),
                                custody: (self.custody - repayment.amount) as u64,
                            },
                        ),
                        Err(_) => None,
                    }
                } else {
                    None
                }
            },
        }
    }

    /// The books after a history of operations, or `None` where one of them
    /// is refused.
    pub open spec fn run(self, history: Seq<Operation>) -> Option<Books>
        decreases history.len(),
    {
        if history.len() == 0 {
            Some(self)
        } else {
            match self.run(history.drop_last()) {
                Some(books) => books.step(history.last()),
                None => None,
            }
        }
    }
}

/// Replacing one contributor's record changes the sum by the difference.
pub proof fn lemma_total_update(contributors: Seq<Contributor>, who: int, record: Contributor)
    requires
        0 <= who < contributors.len(),
    ensures
        total(contributors.update(who, record)) == total(contributors) - contributors[who].amount
            + record.amount,
    decreases contributors.len(),
{
    let updated = contributors.update(who, record);
    if who == contributors.len() - 1 {
        assert(updated.drop_last() =~= contributors.drop_last());
    } else {
        lemma_total_update(contributors.drop_last(), who, record);
        assert(updated.drop_last() =~= contributors.drop_last().update(who, record));
    }
}

/// No deposit is larger than the sum of all deposits.
pub proof fn lemma_total_bounds_each(contributors: Seq<Contributor>, who: int)
    requires
        0 <= who < contributors.len(),
    ensures
        0 <= contributors[who].amount <= total(contributors),
    decreases contributors.len(),
{
    lemma_total_is_not_negative(contributors.drop_last());
    if who < contributors.len() - 1 {
        lemma_total_bounds_each(contributors.drop_last(), who);
    }
}

/// A sum of deposits is never negative.
pub proof fn lemma_total_is_not_negative(contributors: Seq<Contributor>)
    ensures
        0 <= total(contributors),
    decreases contributors.len(),
{
    if contributors.len() > 0 {
        lemma_total_is_not_negative(contributors.drop_last());
    }
}

/// One accepted operation keeps balanced books balanced and a covered vault
/// covered.
pub proof fn lemma_step_keeps_balance(books: Books, operation: Operation)
    requires
        books.balanced(),
        books.step(operation) is Some,
    ensures
        books.step(operation).unwrap().balanced(),
        books.covered() ==> books.step(operation).unwrap().covered(),
{
    match operation {
        Operation::Contribute { who, source, amount, now } => {
            let deposit = contribute_spec(
                books.fundraiser,
                books.contributors[who],
                source,
                amount,
                now,
            ).unwrap();
            lemma_total_update(books.contributors, who, deposit.contributor);
        },
        Operation::Refund { who, destination, now } => {
            let repayment = refund_spec(
                books.fundraiser,
                books.contributors[who],
                books.custody,
                destination,
                now,
            ).unwrap();
            lemma_total_update(books.contributors, who, repayment.contributor);
        },
    }
}

/// Over every history of accepted deposits and refunds, the raised total
/// equals the sum of what the contributors have on deposit, and a vault
/// that covered the raised total at the start covers it throughout: at the
/// end, and after each operation on the way.
pub proof fn lemma_raised_is_sum_of_deposits(books: Books, history: Seq<Operation>)
    requires
        books.balanced(),
        books.run(history) is Some,
    ensures
        books.run(history).unwrap().balanced(),
        books.covered() ==> books.run(history).unwrap().covered(),
        forall|k: int|
            0 <= k <= history.len() ==> {
                &&& (#[trigger] books.run(history.take(k))) is Some
                &&& books.run(history.take(k)).unwrap().balanced()
                &&& books.covered() ==> books.run(history.take(k)).unwrap().covered()
            },
    decreases history.len(),
{
    if history.len() == 0 {
        assert forall|k: int| 0 <= k <= history.len() implies {
            &&& (#[trigger] books.run(history.take(k))) is Some
            &&& books.run(history.take(k)).unwrap().balanced()
            &&& books.covered() ==> books.run(history.take(k)).unwrap().covered()
        } by {
            assert(history.take(k) =~= history);
        }
    } else {
        let earlier = history.drop_last();
        lemma_raised_is_sum_of_deposits(books, earlier);
        lemma_step_keeps_balance(books.run(earlier).unwrap(), history.last());
        assert forall|k: int| 0 <= k <= history.len() implies {
            &&& (#[trigger] books.run(history.take(k))) is Some
            &&& books.run(history.take(k)).unwrap().balanced()
            &&& books.covered() ==> books.run(history.take(k)).unwrap().covered()
        } by {
            if k == history.len() {
                assert(history.take(k) =~= history);
            } else {
                assert(history.take(k) =~= earlier.take(k));
            }
        }
    }
}

/// Books that have just been opened, with nothing raised and nothing on
/// deposit, are balanced, and any vault covers them.
pub proof fn lemma_fresh_books_balance(
    fundraiser: FundraiserView,
    contributors: Seq<Contributor>,
    custody: u64,
)
    requires
        fundraiser.current_amount == 0,
        forall|i: int| 0 <= i < contributors.len() ==> contributors[i].amount == 0,
    ensures
        (Books { fundraiser, contributors, custody }).balanced(),
        (Books { fundraiser, contributors, custody }).covered(),
    decreases contributors.len(),
{
    if contributors.len() > 0 {
        lemma_fresh_books_balance(fundraiser, contributors.drop_last(), custody);
    }
}

/// On balanced books with a covered vault, a refund that is due is paid:
/// neither the vault nor the raised total can fall short of a deposit, so
/// `InsufficientFunds` and `ArithmeticUnderflow` do not arise.
pub proof fn lemma_due_refund_is_paid(
    books: Books,
    who: int,
    destination: TokenBalanceView,
    now: i64,
)
    requires
        books.balanced(),
        books.covered(),
        0 <= who < books.contributors.len(),
        books.contributors[who].amount > 0,
        refund_eligible(books.fundraiser, now),
        destination.mint == books.fundraiser.mint_to_raise,
    ensures
        books.step(Operation::Refund { who, destination, now }) is Some,
        refund_spec(
            books.fundraiser,
            books.contributors[who],
            books.custody,
            destination,
            now,
        ) is Ok,
{
    lemma_total_bounds_each(books.contributors, who);
}

/// A deposit offered after the deadline is refused with `CampaignEnded`,
/// whatever positive amount is offered, and a deposit of nothing is refused
/// with `InvalidAmount`.
pub proof fn lemma_contribute_refusals(
    fundraiser: FundraiserView,
    contributor: Contributor,
    source: TokenBalanceView,
    amount: u64,
    now: i64,
)
    ensures
        amount > 0 && now > fundraiser.time_ending ==> contribute_spec(
            fundraiser,
            contributor,
            source,
            amount,
            now,
        ) == Err::<DepositView, _>(FundraiserError::CampaignEnded),
        amount == 0 ==> contribute_spec(fundraiser, contributor, source, amount, now) == Err::<
            DepositView,
            _,
        >(FundraiserError::InvalidAmount),
{
}

/// A deposit that would push a running total past 64 bits is refused with
/// `ArithmeticOverflow` whenever nothing else is wrong with it.
pub proof fn lemma_contribute_overflow(
    fundraiser: FundraiserView,
    contributor: Contributor,
    source: TokenBalanceView,
    amount: u64,
    now: i64,
)
    requires
        amount > 0,
        now <= fundraiser.time_ending,
        source.mint == fundraiser.mint_to_raise,
        source.amount >= amount,
        fundraiser.current_amount + amount > u64::MAX,
    ensures
        contribute_spec(fundraiser, contributor, source, amount, now) == Err::<DepositView, _>(
            FundraiserError::ArithmeticOverflow,
        ),
{
}

/// An accepted sweep moves exactly what the vault holds, leaving it empty,
/// and no sweep of the emptied vault is accepted again, whoever asks and
/// whenever.
pub proof fn lemma_sweep_drains_once(
    fundraiser: FundraiserView,
    custody: u64,
    destination: TokenBalanceView,
    maker_lamports: u64,
    record_lamports: u64,
    now: i64,
    later_fundraiser: FundraiserView,
    later_destination: TokenBalanceView,
    later_maker_lamports: u64,
    later_record_lamports: u64,
    later: i64,
)
    requires
        checker_spec(fundraiser, custody, destination, maker_lamports, record_lamports, now) is Ok,
    ensures
        checker_spec(
            fundraiser,
            custody,
            destination,
            maker_lamports,
            record_lamports,
            now,
        ).unwrap().amount == custody,
        checker_spec(
            later_fundraiser,
            (custody - checker_spec(
                fundraiser,
                custody,
                destination,
                maker_lamports,
                record_lamports,
                now,
            ).unwrap().amount) as u64,
            later_destination,
            later_maker_lamports,
            later_record_lamports,
            later,
        ) is Err,
{
}

/// An accepted refund moves exactly the contributor's own deposit, takes it
/// off the raised total and leaves the deposit at zero; a second refund to
/// the same contributor is refused with `NothingToRefund`, whatever has
/// happened to the fundraiser and to the other contributors meanwhile.
pub proof fn lemma_refund_pays_once(
    fundraiser: FundraiserView,
    contributor: Contributor,
    custody: u64,
    destination: TokenBalanceView,
    now: i64,
    later_fundraiser: FundraiserView,
    later_custody: u64,
    later_destination: TokenBalanceView,
    later: i64,
)
    requires
        refund_spec(fundraiser, contributor, custody, destination, now) is Ok,
    ensures
        ({
            let repayment = refund_spec(
                fundraiser,
                contributor,
                custody,
                destination,
                now,
            ).unwrap();
            &&& repayment.amount == contributor.amount
            &&& repayment.contributor.amount == 0
            &&& repayment.fundraiser.current_amount == fundraiser.current_amount
                - contributor.amount
            &&& refund_spec(
                later_fundraiser,
                repayment.contributor,
                later_custody,
                later_destination,
                later,
            ) == Err::<RepaymentView, _>(FundraiserError::NothingToRefund)
        }),
{
}

/// Sweep and refund never both stand open before the deadline, and a
/// fundraiser that reached its target pays no refunds.
pub proof fn lemma_refund_needs_missed_target(
    fundraiser: FundraiserView,
    contributor: Contributor,
    custody: u64,
    destination: TokenBalanceView,
    now: i64,
)
    requires
        refund_spec(fundraiser, contributor, custody, destination, now) is Ok,
    ensures
        now >= fundraiser.time_ending,
        fundraiser.current_amount < fundraiser.amount_to_raise,
{
}

/// A sweep is refused with `AddressMismatch`, before anything is moved,
/// when the signer is not the recorded maker or when the record does not
/// sit at the address derived for the maker.
pub proof fn lemma_sweep_checks_addresses(
    program: Seq<u8>,
    accounts: Seq<AccountView>,
    now: i64,
    authority: Option<(Seq<u8>, u8)>,
)
    requires
        accounts.len() >= 4,
        accounts[0].is_signer,
        accounts[2].data.len() == 89,
        accounts[2].owner == program,
        accounts[0].key != FundraiserView::parse(accounts[2].data).maker || !derives(
            authority,
            accounts[2].key,
        ),
    ensures
        check_contributions_spec(program, accounts, Seq::<u8>::empty(), now, authority) == Err::<
            ClosingView,
            _,
        >(FundraiserError::AddressMismatch),
{
}

/// Once a sweep has been committed, the record it closed is dead: whatever
/// the balances hold by then and whenever it is tried, a second sweep by the
/// same maker is refused, and where nothing else is wrong with the call, it
/// is refused because the cleared record no longer names the maker. (A
/// maker whose address is all zeros is not covered.)
pub proof fn lemma_swept_record_is_dead(
    program: Seq<u8>,
    accounts: Seq<AccountView>,
    data: Seq<u8>,
    now: i64,
    authority: Option<(Seq<u8>, u8)>,
    later_accounts: Seq<AccountView>,
    later_data: Seq<u8>,
    later: i64,
    later_authority: Option<(Seq<u8>, u8)>,
)
    requires
        check_contributions_spec(program, accounts, data, now, authority) is Ok,
        !all_zero(accounts[0].key),
        later_accounts.len() >= 4,
        later_accounts[0].key == accounts[0].key,
        later_accounts[2] == OutcomeView::Swept(
            check_contributions_spec(program, accounts, data, now, authority).unwrap(),
        ).committed(accounts)[2],
    ensures
        check_contributions_spec(
            program,
            later_accounts,
            later_data,
            later,
            later_authority,
        ) is Err,
        later_data.len() == 0 && later_accounts[0].is_signer ==> check_contributions_spec(
            program,
            later_accounts,
            later_data,
            later,
            later_authority,
        ) == Err::<ClosingView, _>(FundraiserError::AddressMismatch),
{
    let key = accounts[0].key;
    let record = later_accounts[2].data;
    assert(record =~= zeroed(accounts[2].data));
    let i = choose|i: int| 0 <= i < key.len() && key[i] != 0u8;
    let maker = FundraiserView::parse(record).maker;
    if key.len() == 32 {
        assert(maker[i] == 0u8);
    }
    assert(key != maker);
}

/// An accepted deposit credits exactly what it moves: the amount that
/// goes from the contributor's balance into the fundraiser's own vault is
/// positive, is covered by the paying balance, and is added to the raised
/// total and to the contributor's deposit. Nothing else in the fundraiser
/// record changes.
pub proof fn lemma_deposit_credits_what_it_moves(
    program: Seq<u8>,
    accounts: Seq<AccountView>,
    data: Seq<u8>,
    now: i64,
    authority: Option<(Seq<u8>, u8)>,
    record_authority: Option<(Seq<u8>, u8)>,
)
    requires
        contribute_accounts_spec(program, accounts, data, now, authority, record_authority) is Ok,
    ensures
        ({
            let booking = contribute_accounts_spec(
                program,
                accounts,
                data,
                now,
                authority,
                record_authority,
            ).unwrap();
            let before = FundraiserView::parse(accounts[3].data);
            let moved = booking.transfer.amount;
            &&& 0 < moved <= token_balance(accounts[2].data).amount
            &&& now <= before.time_ending
            &&& booking.transfer.source == accounts[2].key
            &&& booking.transfer.destination == accounts[4].key
            &&& booking.transfer.authority == accounts[0].key
            &&& booking.transfer.seeds is None
            &&& token_balance(accounts[4].data).owner == accounts[3].key
            &&& booking.fundraiser.current_amount == before.current_amount + moved
            &&& booking.contributor.amount == Contributor::parse(accounts[1].data).amount + moved
            &&& booking.fundraiser == (FundraiserView {
                current_amount: booking.fundraiser.current_amount,
                ..before
            })
        }),
{
}

/// An accepted refund debits exactly what it moves: the contributor's whole
/// deposit goes from the fundraiser's own vault, on the fundraiser's derived
/// authority, and is taken off the raised total; the deposit is zero
/// afterwards. Nothing else in the fundraiser record changes.
pub proof fn lemma_refund_debits_what_it_moves(
    program: Seq<u8>,
    accounts: Seq<AccountView>,
    data: Seq<u8>,
    now: i64,
    authority: Option<(Seq<u8>, u8)>,
    record_authority: Option<(Seq<u8>, u8)>,
)
    requires
        refund_accounts_spec(program, accounts, data, now, authority, record_authority) is Ok,
    ensures
        ({
            let booking = refund_accounts_spec(
                program,
                accounts,
                data,
                now,
                authority,
                record_authority,
            ).unwrap();
            let before = FundraiserView::parse(accounts[2].data);
            let moved = booking.transfer.amount;
            &&& moved == Contributor::parse(accounts[3].data).amount
            &&& 0 < moved <= token_balance(accounts[5].data).amount
            &&& before.time_ending <= now
            &&& before.current_amount < before.amount_to_raise
            &&& booking.transfer.source == accounts[5].key
            &&& booking.transfer.destination == accounts[4].key
            &&& booking.transfer.authority == accounts[2].key
            &&& booking.transfer.seeds == Some(
                SignerSeedsView { maker: before.maker, bump: authority.unwrap().1 },
            )
            &&& derives(authority, accounts[2].key)
            &&& token_balance(accounts[5].data).owner == accounts[2].key
            &&& booking.fundraiser.current_amount == before.current_amount - moved
            &&& booking.contributor.amount == 0
            &&& booking.fundraiser == (FundraiserView {
                current_amount: booking.fundraiser.current_amount,
                ..before
            })
        }),
{
}

/// An accepted sweep moves the vault's whole balance: it is asked by the
/// recorded maker, who signed; it takes everything the fundraiser's own
/// vault holds, on the fundraiser's derived authority; and it comes no
/// earlier than the deadline unless the target has been reached.
pub proof fn lemma_sweep_moves_the_whole_vault(
    program: Seq<u8>,
    accounts: Seq<AccountView>,
    data: Seq<u8>,
    now: i64,
    authority: Option<(Seq<u8>, u8)>,
)
    requires
        check_contributions_spec(program, accounts, data, now, authority) is Ok,
    ensures
        ({
            let closing = check_contributions_spec(
                program,
                accounts,
                data,
                now,
                authority,
            ).unwrap();
            let record = FundraiserView::parse(accounts[2].data);
            &&& accounts[0].is_signer
            &&& accounts[0].key == record.maker
            &&& derives(authority, accounts[2].key)
            &&& record.time_ending <= now || record.amount_to_raise <= record.current_amount
            &&& closing.transfer.amount == token_balance(accounts[3].data).amount
            &&& closing.transfer.amount > 0
            &&& closing.transfer.source == accounts[3].key
            &&& closing.transfer.destination == accounts[1].key
            &&& closing.transfer.authority == accounts[2].key
            &&& closing.transfer.seeds == Some(
                SignerSeedsView { maker: record.maker, bump: authority.unwrap().1 },
            )
            &&& token_balance(accounts[3].data).owner == accounts[2].key
            &&& closing.maker_lamports == accounts[0].lamports + accounts[2].lamports
        }),
{
}

/// What an outcome commits can be read back: after a deposit or a refund
/// the two record accounts hold exactly the records of the booking, after
/// an opening the record account holds the new record in 89 bytes, and
/// after a sweep the record account holds nothing but zeros.
pub proof fn lemma_committed_records_read_back(outcome: OutcomeView, accounts: Seq<AccountView>)
    requires
        accounts.len() >= outcome.accounts_read(),
        match outcome {
            OutcomeView::Initialized(record) => record.well_formed(),
            OutcomeView::Contributed(booking) => booking.fundraiser.well_formed(),
            OutcomeView::Refunded(booking) => booking.fundraiser.well_formed(),
            OutcomeView::Swept(_) => true,
        },
    ensures
        outcome.committed(accounts).len() == accounts.len(),
        match outcome {
            OutcomeView::Initialized(record) => {
                &&& outcome.committed(accounts)[1].data.len() == 89
                &&& FundraiserView::parse(outcome.committed(accounts)[1].data) == record
            },
            OutcomeView::Contributed(booking) => {
                &&& FundraiserView::parse(outcome.committed(accounts)[3].data)
                    == booking.fundraiser
                &&& Contributor::parse(outcome.committed(accounts)[1].data) == booking.contributor
            },
            OutcomeView::Refunded(booking) => {
                &&& FundraiserView::parse(outcome.committed(accounts)[2].data)
                    == booking.fundraiser
                &&& Contributor::parse(outcome.committed(accounts)[3].data) == booking.contributor
            },
            OutcomeView::Swept(closing) => {
                &&& all_zero(outcome.committed(accounts)[2].data)
                &&& outcome.committed(accounts)[2].lamports == 0
                &&& outcome.committed(accounts)[0].lamports == closing.maker_lamports
            },
        },
{
    match outcome {
        OutcomeView::Initialized(record) => {
            lemma_parse_wire(record);
        },
        OutcomeView::Contributed(booking) => {
            lemma_parse_wire(booking.fundraiser);
            lemma_u64_le_round_trip(booking.contributor.amount);
        },
        OutcomeView::Refunded(booking) => {
            lemma_parse_wire(booking.fundraiser);
            lemma_u64_le_round_trip(booking.contributor.amount);
        },
        OutcomeView::Swept(_) => {},
    }
}

} // verus!
