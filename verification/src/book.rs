use crate::accounts::{Invest, StartPresale};
use crate::address::Address;
use crate::presale::{invest_admits, invest_outcome, invest_refusal, start_outcome};
use crate::state::{InvestmentData, PresaleInfo};
use vstd::prelude::*;

verus! {

/// The whole ledger of one presale, as a mathematical value: the presale
/// record, its address, and the record of every investor who has one.
pub struct Book {
    pub presale: PresaleInfo,
    pub presale_key: Address,
    pub records: Map<Address, InvestmentData>,
}

/// One contribution: who contributes, how much, when, and whether the host
/// carried out the transfer into custody that the contribution asks for.
pub struct Contribution {
    pub investor: Address,
    pub value: u64,
    pub now: u64,
    pub transferred: bool,
}

/// The sum of `amount` over all the records.
pub open spec fn total_amount(records: Map<Address, InvestmentData>) -> int
    decreases records.dom().len(),
    when records.dom().finite()
{
    if records.dom().len() == 0 {
        0
    } else {
        let investor = records.dom().choose();
        records[investor].amount + total_amount(records.remove(investor))
    }
}

impl Book {
    /// The ledger right after the presale was configured for the first time:
    /// no investor has a record yet.
    pub open spec fn opened(presale: PresaleInfo, presale_key: Address) -> Book {
        Book { presale, presale_key, records: Map::empty() }
    }

    /// The investor's record, or the empty one that their first contribution
    /// starts from.
    pub open spec fn record_of(self, investor: Address) -> InvestmentData {
        if self.records.dom().contains(investor) {
            self.records[investor]
        } else {
            InvestmentData::empty()
        }
    }

    /// The accounts that a contribution by `investor` works on.
    pub open spec fn invest_accounts(self, investor: Address) -> Invest {
        Invest {
            data: self.record_of(investor),
            from: investor,
            presale: self.presale,
            presale_key: self.presale_key,
        }
    }

    /// The contribution is one that `invest_sol` may be called with.
    pub open spec fn admits(self, call: Contribution) -> bool {
        invest_admits(self.invest_accounts(call.investor), call.value, call.now)
    }

    /// The ledger after one contribution: as `invest_sol` leaves the presale
    /// record and the investor's record, every other record untouched. A
    /// contribution that is refused, or whose transfer fails, leaves the
    /// ledger as it was.
    pub open spec fn contribute(self, call: Contribution) -> Book {
        match invest_outcome(self.invest_accounts(call.investor), call.value, call.now) {
            Ok((after, _)) => if call.transferred {
                Book {
                    presale: after.presale,
                    presale_key: self.presale_key,
                    records: self.records.insert(call.investor, after.data),
                }
            } else {
                self
            },
            Err(_) => self,
        }
    }

    /// The ledger after the contributions in `calls`, first to last.
    pub open spec fn contribute_all(self, calls: Seq<Contribution>) -> Book
        decreases calls.len(),
    {
        if calls.len() == 0 {
            self
        } else {
            self.contribute_all(calls.drop_last()).contribute(calls.last())
        }
    }

    /// Each contribution in `calls` is admitted by the ledger that the ones
    /// before it leave.
    pub open spec fn admits_all(self, calls: Seq<Contribution>) -> bool
        decreases calls.len(),
    {
        calls.len() == 0 || (self.admits_all(calls.drop_last()) && self.contribute_all(
            calls.drop_last(),
        ).admits(calls.last()))
    }

    /// The amount raised is the sum of what the investors' records hold.
    pub open spec fn reconciled(self) -> bool {
        &&& self.records.dom().finite()
        &&& self.presale.amount_raised == total_amount(self.records)
    }
}

/// The sum over all records is the amount of any one of them plus the sum
/// over the others.
proof fn lemma_total_amount_remove(records: Map<Address, InvestmentData>, investor: Address)
    requires
        records.dom().finite(),
        records.dom().contains(investor),
    ensures
        total_amount(records) == records[investor].amount + total_amount(records.remove(investor)),
    decreases records.dom().len(),
{
    let chosen = records.dom().choose();
    if chosen != investor {
        lemma_total_amount_remove(records.remove(chosen), investor);
        lemma_total_amount_remove(records.remove(investor), chosen);
        assert(records.remove(chosen).remove(investor) =~= records.remove(investor).remove(chosen));
    }
}

/// Writing a record changes the sum by the difference between the new amount
/// and the one that the investor had before.
proof fn lemma_total_amount_insert(book: Book, investor: Address, data: InvestmentData)
    requires
        book.records.dom().finite(),
    ensures
        total_amount(book.records.insert(investor, data)) == total_amount(book.records)
            - book.record_of(investor).amount + data.amount,
{
    let written = book.records.insert(investor, data);
    lemma_total_amount_remove(written, investor);
    assert(written.remove(investor) =~= book.records.remove(investor));
    if book.records.dom().contains(investor) {
        lemma_total_amount_remove(book.records, investor);
    } else {
        assert(book.records.remove(investor) =~= book.records);
    }
}

/// One contribution, whether it is accepted, refused or fails in its
/// transfer, keeps a reconciled ledger reconciled.
pub proof fn lemma_contribute_keeps_reconciled(book: Book, call: Contribution)
    requires
        book.reconciled(),
        book.admits(call),
    ensures
        book.contribute(call).reconciled(),
{
    if invest_refusal(book.presale, call.now) is None {
        let accounts = book.invest_accounts(call.investor);
        let after = invest_outcome(accounts, call.value, call.now)->Ok_0.0;
        lemma_total_amount_insert(book, call.investor, after.data);
    }
}

/// Any sequence of contributions, by any investors and at any times, keeps a
/// reconciled ledger reconciled.
pub proof fn lemma_contributions_keep_reconciled(book: Book, calls: Seq<Contribution>)
    requires
        book.reconciled(),
        book.admits_all(calls),
    ensures
        book.contribute_all(calls).reconciled(),
    decreases calls.len(),
{
    if calls.len() > 0 {
        lemma_contributions_keep_reconciled(book, calls.drop_last());
        lemma_contribute_keeps_reconciled(book.contribute_all(calls.drop_last()), calls.last());
    }
}

/// From the moment the presale is configured for the first time, and after
/// any sequence of contributions, the amount raised equals the sum of the
/// amounts in all the investors' records.
pub proof fn lemma_amount_raised_is_sum_of_records(
    ctx: StartPresale,
    goal: u64,
    start_time: u64,
    end_time: u64,
    price_per_token: u64,
    presale_key: Address,
    calls: Seq<Contribution>,
)
    requires
        Book::opened(
            start_outcome(ctx, goal, start_time, end_time, price_per_token).presale,
            presale_key,
        ).admits_all(calls),
    ensures
        ({
            let book = Book::opened(
                start_outcome(ctx, goal, start_time, end_time, price_per_token).presale,
                presale_key,
            ).contribute_all(calls);
            book.presale.amount_raised == total_amount(book.records)
        }),
{
    lemma_contributions_keep_reconciled(
        Book::opened(
            start_outcome(ctx, goal, start_time, end_time, price_per_token).presale,
            presale_key,
        ),
        calls,
    );
}

} // verus!
