//! The count queries that each aggregation issues, what each one counts, and
//! an evaluation of them over a ledger held in memory.
use vstd::prelude::*;
use crate::ledger::{
    count_native, count_selected, evm_active, evm_addrs, evm_sender_count, evm_stamps,
    lemma_both_within_either, lemma_count_at_most_len, lemma_empty_window_no_addresses,
    lemma_unbounded_window_all_addresses, native_active, native_address_count, native_addrs,
    native_stamps, EvmTx, NativeFilter, NativeTx,
};
use crate::report::{
    distribution_fits, distribution_of, fits_i64, is_distribution, AddressCountResult, V2ChainStatisticsResult, V2DistributeResult,
};
use crate::window::{bind_seq, TimeWindow};

verus! {

/// One aggregate count over one table of the ledger.
#[derive(Clone, Copy, Debug, PartialEq, Eq, Structural)]
pub enum CountQuery {
    /// Every row of the transaction table.
    Transactions,
    /// Rows of the transaction table at or after the given instant.
    TransactionsSince(i64),
    /// Distinct addresses of native transactions within a window.
    NativeAddresses(TimeWindow),
    /// Every native transaction.
    NativeTransactions,
    /// Native transactions with an output concealing asset type or amount.
    NativeHidesEither,
    /// Native transactions with an output concealing asset type and amount.
    NativeHidesBoth,
    /// Every EVM transaction.
    EvmTransactions,
    /// Distinct senders of EVM transactions within a window.
    EvmSenders(TimeWindow),
    /// Every bridge event from the native chain to the EVM chain.
    NativeToEvm,
    /// Every bridge event from the EVM chain to the native chain.
    EvmToNative,
}

/// All rows of the transaction table.
pub const SQL_TRANSACTIONS: &'static str = "SELECT count(*) AS cnt FROM transaction";

/// Rows of the transaction table at or after `$1`.
pub const SQL_TRANSACTIONS_SINCE: &'static str =
    "SELECT count(*) AS cnt FROM transaction WHERE timestamp >= $1";

/// Distinct native addresses, without a filter.
pub const SQL_NATIVE_ADDRESSES: &'static str =
    "SELECT count(DISTINCT address) AS cnt FROM native_txs";

/// Distinct native addresses after `$1`.
pub const SQL_NATIVE_ADDRESSES_AFTER: &'static str =
    "SELECT count(DISTINCT address) AS cnt FROM native_txs WHERE timestamp > $1";

/// Distinct native addresses before `$1`.
pub const SQL_NATIVE_ADDRESSES_BEFORE: &'static str =
    "SELECT count(DISTINCT address) AS cnt FROM native_txs WHERE timestamp < $1";

/// Distinct native addresses after `$1` and before `$2`.
pub const SQL_NATIVE_ADDRESSES_BETWEEN: &'static str =
    "SELECT count(DISTINCT address) AS cnt FROM native_txs WHERE timestamp > $1 AND timestamp < $2";

/// All native transactions.
pub const SQL_NATIVE_TRANSACTIONS: &'static str = "SELECT count(*) AS cnt FROM native_txs";

/// Native transactions with an output whose asset type is concealed, or an
/// output whose amount is concealed.
pub const SQL_NATIVE_HIDES_EITHER: &'static str = "SELECT count(*) AS cnt FROM native_txs WHERE (content @? '$.TransferAsset.body.transfer.outputs[*].asset_type.Confidential') OR (content @? '$.TransferAsset.body.transfer.outputs[*].amount.Confidential')";

/// Native transactions with one output whose asset type and amount are both
/// concealed.
pub const SQL_NATIVE_HIDES_BOTH: &'static str = "SELECT count(*) AS cnt FROM native_txs WHERE content @? '$.TransferAsset.body.transfer.outputs[*] ? (exists(@.asset_type.Confidential) && exists(@.amount.Confidential))'";

/// All EVM transactions.
pub const SQL_EVM_TRANSACTIONS: &'static str = "SELECT count(*) AS cnt FROM evm_txs";

/// Distinct EVM senders, without a filter.
pub const SQL_EVM_SENDERS: &'static str = "SELECT count(DISTINCT sender) AS cnt FROM evm_txs";

/// Distinct EVM senders after `$1`.
pub const SQL_EVM_SENDERS_AFTER: &'static str =
    "SELECT count(DISTINCT sender) AS cnt FROM evm_txs WHERE timestamp > $1";

/// Distinct EVM senders before `$1`.
pub const SQL_EVM_SENDERS_BEFORE: &'static str =
    "SELECT count(DISTINCT sender) AS cnt FROM evm_txs WHERE timestamp < $1";

/// Distinct EVM senders after `$1` and before `$2`.
pub const SQL_EVM_SENDERS_BETWEEN: &'static str =
    "SELECT count(DISTINCT sender) AS cnt FROM evm_txs WHERE timestamp > $1 AND timestamp < $2";

/// All native-to-EVM bridge events.
pub const SQL_NATIVE_TO_EVM: &'static str = "SELECT count(*) AS cnt FROM n2e";

/// All EVM-to-native bridge events.
pub const SQL_EVM_TO_NATIVE: &'static str = "SELECT count(*) AS cnt FROM e2n";

/// Picks the text for a window's shape: no bound, lower, upper, both.
pub open spec fn by_window(
    w: TimeWindow,
    all: &'static str,
    after: &'static str,
    before: &'static str,
    between: &'static str,
) -> &'static str {
    match (w.start, w.end) {
        (None, None) => all,
        (Some(_), None) => after,
        (None, Some(_)) => before,
        (Some(_), Some(_)) => between,
    }
}

/// The SQL text of query `q`, which yields its count in column `cnt`.
pub open spec fn query_sql(q: CountQuery) -> &'static str {
    match q {
        CountQuery::Transactions => SQL_TRANSACTIONS,
        CountQuery::TransactionsSince(_) => SQL_TRANSACTIONS_SINCE,
        CountQuery::NativeAddresses(w) => by_window(
            w,
            SQL_NATIVE_ADDRESSES,
            SQL_NATIVE_ADDRESSES_AFTER,
            SQL_NATIVE_ADDRESSES_BEFORE,
            SQL_NATIVE_ADDRESSES_BETWEEN,
        ),
        CountQuery::NativeTransactions => SQL_NATIVE_TRANSACTIONS,
        CountQuery::NativeHidesEither => SQL_NATIVE_HIDES_EITHER,
        CountQuery::NativeHidesBoth => SQL_NATIVE_HIDES_BOTH,
        CountQuery::EvmTransactions => SQL_EVM_TRANSACTIONS,
        CountQuery::EvmSenders(w) => by_window(
            w,
            SQL_EVM_SENDERS,
            SQL_EVM_SENDERS_AFTER,
            SQL_EVM_SENDERS_BEFORE,
            SQL_EVM_SENDERS_BETWEEN,
        ),
        CountQuery::NativeToEvm => SQL_NATIVE_TO_EVM,
        CountQuery::EvmToNative => SQL_EVM_TO_NATIVE,
    }
}

/// The values bound to the placeholders of `query_sql(q)`, in order.
pub open spec fn query_binds(q: CountQuery) -> Seq<i64> {
    match q {
        CountQuery::TransactionsSince(s) => seq![s],
        CountQuery::NativeAddresses(w) => bind_seq(w),
        CountQuery::EvmSenders(w) => bind_seq(w),
        _ => seq![],
    }
}

/// Picks the text for a window's shape: no bound, lower, upper, both.
fn pick_by_window(
    w: TimeWindow,
    all: &'static str,
    after: &'static str,
    before: &'static str,
    between: &'static str,
) -> (r: &'static str)
    ensures
        r == by_window(w, all, after, before, between),
{
    match (w.start, w.end) {
        (None, None) => all,
        (Some(_), None) => after,
        (None, Some(_)) => before,
        (Some(_), Some(_)) => between,
    }
}

impl CountQuery {
    /// The SQL text of this query; its count comes back in column `cnt`.
    pub fn sql(&self) -> (r: &'static str)
        ensures
            r == query_sql(*self),
    {
        match *self {
            CountQuery::Transactions => SQL_TRANSACTIONS,
            CountQuery::TransactionsSince(_) => SQL_TRANSACTIONS_SINCE,
            CountQuery::NativeAddresses(w) => pick_by_window(
                w,
                SQL_NATIVE_ADDRESSES,
                SQL_NATIVE_ADDRESSES_AFTER,
                SQL_NATIVE_ADDRESSES_BEFORE,
                SQL_NATIVE_ADDRESSES_BETWEEN,
            ),
            CountQuery::NativeTransactions => SQL_NATIVE_TRANSACTIONS,
            CountQuery::NativeHidesEither => SQL_NATIVE_HIDES_EITHER,
            CountQuery::NativeHidesBoth => SQL_NATIVE_HIDES_BOTH,
            CountQuery::EvmTransactions => SQL_EVM_TRANSACTIONS,
            CountQuery::EvmSenders(w) => pick_by_window(
                w,
                SQL_EVM_SENDERS,
                SQL_EVM_SENDERS_AFTER,
                SQL_EVM_SENDERS_BEFORE,
                SQL_EVM_SENDERS_BETWEEN,
            ),
            CountQuery::NativeToEvm => SQL_NATIVE_TO_EVM,
            CountQuery::EvmToNative => SQL_EVM_TO_NATIVE,
        }
    }

    /// The values to bind to the placeholders of [`CountQuery::sql`], in order.
    pub fn bind_values(&self) -> (r: Vec<i64>)
        ensures
            r@ == query_binds(*self),
    {
        match *self {
            CountQuery::TransactionsSince(s) => {
                let r = vec![s];
                proof {
                    assert(r@ =~= seq![s]);
                }
                r
            },
            CountQuery::NativeAddresses(w) => w.bind_values(),
            CountQuery::EvmSenders(w) => w.bind_values(),
            _ => {
                let r: Vec<i64> = Vec::new();
                proof {
                    assert(r@ =~= query_binds(*self));
                }
                r
            },
        }
    }
}

/// The queries behind the statistics, in the order that
/// `V2ChainStatisticsResult::from_counts` folds them.
pub open spec fn statistics_queries(day_start: i64) -> Seq<CountQuery> {
    seq![
        CountQuery::Transactions,
        CountQuery::NativeAddresses(TimeWindow { start: None, end: None }),
        CountQuery::TransactionsSince(day_start),
    ]
}

/// The queries behind the distribution, in the order that
/// `V2DistributeResult::from_counts` folds them.
pub open spec fn distribution_queries() -> Seq<CountQuery> {
    seq![
        CountQuery::NativeTransactions,
        CountQuery::NativeHidesEither,
        CountQuery::NativeHidesBoth,
        CountQuery::EvmTransactions,
        CountQuery::NativeToEvm,
        CountQuery::EvmToNative,
    ]
}

/// The queries behind the address count: the same window on both chains.
pub open spec fn address_count_queries(w: TimeWindow) -> Seq<CountQuery> {
    seq![CountQuery::NativeAddresses(w), CountQuery::EvmSenders(w)]
}

/// The queries for the statistics, with "today" beginning at `day_start`.
pub fn statistics_plan(day_start: i64) -> (r: Vec<CountQuery>)
    ensures
        r@ == statistics_queries(day_start),
{
    let r = vec![
        CountQuery::Transactions,
        CountQuery::NativeAddresses(TimeWindow::unbounded()),
        CountQuery::TransactionsSince(day_start),
    ];
    proof {
        assert(r@ =~= statistics_queries(day_start));
    }
    r
}

/// The queries for the distribution.
pub fn distribution_plan() -> (r: Vec<CountQuery>)
    ensures
        r@ == distribution_queries(),
{
    let r = vec![
        CountQuery::NativeTransactions,
        CountQuery::NativeHidesEither,
        CountQuery::NativeHidesBoth,
        CountQuery::EvmTransactions,
        CountQuery::NativeToEvm,
        CountQuery::EvmToNative,
    ];
    proof {
        assert(r@ =~= distribution_queries());
    }
    r
}

/// The queries for the address count within `w`.
pub fn address_count_plan(w: TimeWindow) -> (r: Vec<CountQuery>)
    ensures
        r@ == address_count_queries(w),
{
    let r = vec![CountQuery::NativeAddresses(w), CountQuery::EvmSenders(w)];
    proof {
        assert(r@ =~= address_count_queries(w));
    }
    r
}

/// A ledger held in memory: the native and EVM transactions, and the number
/// of bridge events in each direction.
pub struct Ledger {
    pub transactions: Vec<NativeTx>,
    pub evm_transactions: Vec<EvmTx>,
    pub native_to_evm: usize,
    pub evm_to_native: usize,
}

/// What query `q` counts in ledger `l`.
pub open spec fn query_count(l: Ledger, q: CountQuery) -> int {
    let txs = l.transactions@;
    match q {
        CountQuery::Transactions => count_selected(txs, NativeFilter::All) as int,
        CountQuery::TransactionsSince(s) => count_selected(txs, NativeFilter::Since(s)) as int,
        CountQuery::NativeAddresses(w) => native_active(txs, w).len() as int,
        CountQuery::NativeTransactions => count_selected(txs, NativeFilter::All) as int,
        CountQuery::NativeHidesEither => count_selected(txs, NativeFilter::HidesEither) as int,
        CountQuery::NativeHidesBoth => count_selected(txs, NativeFilter::HidesBoth) as int,
        CountQuery::EvmTransactions => l.evm_transactions@.len() as int,
        CountQuery::EvmSenders(w) => evm_active(l.evm_transactions@, w).len() as int,
        CountQuery::NativeToEvm => l.native_to_evm as int,
        CountQuery::EvmToNative => l.evm_to_native as int,
    }
}

/// Whether every query of `plan` has an `i64` count in `l`.
pub open spec fn plan_fits(l: Ledger, plan: Seq<CountQuery>) -> bool {
    forall|i: int| 0 <= i < plan.len() ==> fits_i64(query_count(l, #[trigger] plan[i]))
}

/// The counts of `plan` in `l`, in order.
pub open spec fn plan_counts(l: Ledger, plan: Seq<CountQuery>) -> Seq<i64> {
    plan.map_values(|q: CountQuery| query_count(l, q) as i64)
}

impl Ledger {
    /// The count that query `q` reads from this ledger.
    pub fn count(&self, q: CountQuery) -> (r: usize)
        ensures
            r == query_count(*self, q),
    {
        match q {
            CountQuery::Transactions => count_native(&self.transactions, NativeFilter::All),
            CountQuery::TransactionsSince(s) => count_native(
                &self.transactions,
                NativeFilter::Since(s),
            ),
            CountQuery::NativeAddresses(w) => native_address_count(&self.transactions, w),
            CountQuery::NativeTransactions => count_native(&self.transactions, NativeFilter::All),
            CountQuery::NativeHidesEither => count_native(
                &self.transactions,
                NativeFilter::HidesEither,
            ),
            CountQuery::NativeHidesBoth => count_native(
                &self.transactions,
                NativeFilter::HidesBoth,
            ),
            CountQuery::EvmTransactions => self.evm_transactions.len(),
            CountQuery::EvmSenders(w) => evm_sender_count(&self.evm_transactions, w),
            CountQuery::NativeToEvm => self.native_to_evm,
            CountQuery::EvmToNative => self.evm_to_native,
        }
    }

    /// Runs every query of `plan` in order, as a store would; fails where a
    /// count does not fit the `i64` that a store reports it in.
    pub fn run(&self, plan: &Vec<CountQuery>) -> (r: Result<Vec<i64>, String>)
        ensures
            r is Ok <==> plan_fits(*self, plan@),
            r matches Ok(v) ==> v@ == plan_counts(*self, plan@),
    {
        let mut out: Vec<i64> = Vec::new();
        let mut i: usize = 0;
        while i < plan.len()
            invariant
                0 <= i <= plan.len(),
                plan_fits(*self, plan@.take(i as int)),
                out@ == plan_counts(*self, plan@.take(i as int)),
            decreases plan.len() - i,
        {
            let c = self.count(plan[i]);
            if c as u64 > i64::MAX as u64 {
                proof {
                    assert(!fits_i64(query_count(*self, plan@[i as int])));
                }
                return Err("a count exceeds the range of i64".to_owned());
            }
            let ghost prev = out@;
            out.push(c as i64);
            proof {
                assert(plan@.take(i + 1) =~= plan@.take(i as int).push(plan@[i as int]));
                assert(out@ =~= plan_counts(*self, plan@.take(i + 1)));
                assert(plan_fits(*self, plan@.take(i + 1))) by {
                    assert forall|j: int| 0 <= j < i + 1 implies fits_i64(
                        query_count(*self, #[trigger] plan@.take(i + 1)[j]),
                    ) by {
                        if j < i {
                            assert(plan@.take(i + 1)[j] == plan@.take(i as int)[j]);
                        }
                    }
                }
            }
            i += 1;
        }
        proof {
            assert(plan@.take(i as int) =~= plan@);
        }
        Ok(out)
    }

    /// The statistics of this ledger, with "today" beginning at `day_start`.
    pub fn statistics(&self, day_start: i64) -> (r: V2ChainStatisticsResult)
        ensures
            ({
                let total = query_count(*self, CountQuery::Transactions);
                let active = query_count(
                    *self,
                    CountQuery::NativeAddresses(TimeWindow { start: None, end: None }),
                );
                let daily = query_count(*self, CountQuery::TransactionsSince(day_start));
                if fits_i64(total) && fits_i64(active) && fits_i64(daily) {
                    &&& r.code == crate::report::CODE_OK
                    &&& r.message@.len() == 0
                    &&& r.data matches Some(d)
                    &&& d.total_txs == total
                    &&& d.active_addrs == active
                    &&& d.daily_txs == daily
                } else {
                    r.code == crate::report::CODE_INTERNAL_ERROR && r.data is None
                }
            }),
    {
        let plan = statistics_plan(day_start);
        let counts = self.run(&plan);
        proof {
            let p = statistics_queries(day_start);
            assert(p[0] == CountQuery::Transactions);
            assert(p[2] == CountQuery::TransactionsSince(day_start));
        }
        V2ChainStatisticsResult::from_counts(counts)
    }
    /// The distribution of this ledger's transactions over the categories.
    pub fn distribution(&self) -> (r: V2DistributeResult)
        ensures
            ({
                let native = query_count(*self, CountQuery::NativeTransactions);
                let either = query_count(*self, CountQuery::NativeHidesEither);
                let both = query_count(*self, CountQuery::NativeHidesBoth);
                let evm = query_count(*self, CountQuery::EvmTransactions);
                let n2e = query_count(*self, CountQuery::NativeToEvm);
                let e2n = query_count(*self, CountQuery::EvmToNative);
                if fits_i64(native) && fits_i64(either) && fits_i64(both) && fits_i64(evm)
                    && fits_i64(n2e) && fits_i64(e2n) && distribution_fits(
                    native,
                    either,
                    both,
                    evm,
                    n2e,
                    e2n,
                ) {
                    &&& r.code == crate::report::CODE_OK
                    &&& r.message@.len() == 0
                    &&& r.data matches Some(d)
                    &&& is_distribution(d, native, either, both, evm, n2e, e2n)
                } else {
                    r.code == crate::report::CODE_INTERNAL_ERROR && r.data is None
                }
            }),
    {
        let plan = distribution_plan();
        let counts = self.run(&plan);
        proof {
            let p = distribution_queries();
            assert(p[0] == CountQuery::NativeTransactions);
            assert(p[1] == CountQuery::NativeHidesEither);
            assert(p[2] == CountQuery::NativeHidesBoth);
            assert(p[3] == CountQuery::EvmTransactions);
            assert(p[4] == CountQuery::NativeToEvm);
            assert(p[5] == CountQuery::EvmToNative);
        }
        V2DistributeResult::from_counts(counts)
    }

    /// The number of distinct native addresses plus the number of distinct
    /// EVM senders active within `w`.
    pub fn address_count(&self, w: TimeWindow) -> (r: AddressCountResult)
        ensures
            ({
                let native = native_active(self.transactions@, w).len() as int;
                let evm = evm_active(self.evm_transactions@, w).len() as int;
                if fits_i64(native) && fits_i64(evm) && fits_i64(native + evm) {
                    &&& r.code == crate::report::CODE_OK
                    &&& r.message@.len() == 0
                    &&& r.data matches Some(c)
                    &&& c.address_count == native + evm
                } else {
                    r.code == crate::report::CODE_INTERNAL_ERROR && r.data is None
                }
            }),
    {
        let plan = address_count_plan(w);
        let counts = self.run(&plan);
        proof {
            let p = address_count_queries(w);
            assert(p[0] == CountQuery::NativeAddresses(w));
            assert(p[1] == CountQuery::EvmSenders(w));
        }
        AddressCountResult::from_counts(counts)
    }
}

/// `transparent + privacy` is the number of native transactions, but
/// `privacy` adds the transactions that conceal both fields to those that
/// conceal either, so each of the first kind is counted twice: where there
/// is one, `privacy` exceeds the transactions that conceal anything, and
/// `transparent` falls short of those that conceal nothing.
pub proof fn lemma_privacy_counts_both_twice(l: Ledger)
    ensures
        ({
            let native = query_count(l, CountQuery::NativeTransactions);
            let either = query_count(l, CountQuery::NativeHidesEither);
            let both = query_count(l, CountQuery::NativeHidesBoth);
            let d = distribution_of(
                native,
                either,
                both,
                query_count(l, CountQuery::EvmTransactions),
                query_count(l, CountQuery::NativeToEvm),
                query_count(l, CountQuery::EvmToNative),
            );
            &&& native == l.transactions@.len()
            &&& 0 <= both <= either <= native
            &&& d.1 == either + both
            &&& d.0 + d.1 == native
            &&& both > 0 ==> d.1 > either && d.0 < native - either
        }),
{
    let txs = l.transactions@;
    lemma_count_at_most_len(txs, NativeFilter::All);
    lemma_count_at_most_len(txs, NativeFilter::HidesEither);
    lemma_both_within_either(txs);
}

/// The address count over a window without bounds counts every distinct
/// address on each chain; over a window whose start is not below its end it
/// counts none, whatever the ledger holds.
pub proof fn lemma_address_count_window_edges(l: Ledger, w: TimeWindow)
    ensures
        w.start is None && w.end is None ==> {
            &&& query_count(l, CountQuery::NativeAddresses(w)) == native_addrs(
                l.transactions@,
            ).to_set().len()
            &&& query_count(l, CountQuery::EvmSenders(w)) == evm_addrs(
                l.evm_transactions@,
            ).to_set().len()
        },
        w.start is Some && w.end is Some && w.start->Some_0 >= w.end->Some_0 ==> {
            &&& query_count(l, CountQuery::NativeAddresses(w)) == 0
            &&& query_count(l, CountQuery::EvmSenders(w)) == 0
        },
{
    let (ns, na) = (native_stamps(l.transactions@), native_addrs(l.transactions@));
    let (es, ea) = (evm_stamps(l.evm_transactions@), evm_addrs(l.evm_transactions@));
    if w.start is None && w.end is None {
        lemma_unbounded_window_all_addresses(ns, na, w);
        lemma_unbounded_window_all_addresses(es, ea, w);
    }
    if w.start is Some && w.end is Some && w.start->Some_0 >= w.end->Some_0 {
        lemma_empty_window_no_addresses(ns, na, w);
        lemma_empty_window_no_addresses(es, ea, w);
    }
}

} // verus!
