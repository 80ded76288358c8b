//! Ledger rows held in memory, and the counts that the aggregations read
//! from them: rows in a category, and distinct addresses within a window.
use vstd::prelude::*;
use crate::classify::{
    conceals_both, conceals_either, hides_amount_and_type, hides_amount_or_type, TransferOutput,
};
use crate::window::{day_start, in_window, local_day, TimeWindow};

verus! {

/// A native transaction: when it happened, who sent it, and its outputs.
pub struct NativeTx {
    pub timestamp: i64,
    pub address: String,
    pub outputs: Vec<TransferOutput>,
}

/// A transaction of the EVM-compatible chain: when it happened, who sent it.
pub struct EvmTx {
    pub timestamp: i64,
    pub sender: String,
}

/// A subset of the native transactions that the aggregations count.
#[derive(Clone, Copy, Debug, PartialEq, Eq, Structural)]
pub enum NativeFilter {
    /// Every transaction.
    All,
    /// Transactions at or after the given instant.
    Since(i64),
    /// Transactions with some output that conceals its asset type or amount.
    HidesEither,
    /// Transactions with some output that conceals both.
    HidesBoth,
}

/// Whether transaction `t` belongs to the subset that `f` selects.
pub open spec fn selects(f: NativeFilter, t: NativeTx) -> bool {
    match f {
        NativeFilter::All => true,
        NativeFilter::Since(start) => t.timestamp >= start,
        NativeFilter::HidesEither => conceals_either(t.outputs@),
        NativeFilter::HidesBoth => conceals_both(t.outputs@),
    }
}

/// The number of rows that `f` selects.
pub open spec fn count_selected(rows: Seq<NativeTx>, f: NativeFilter) -> nat
    decreases rows.len(),
{
    if rows.len() == 0 {
        0
    } else {
        count_selected(rows.drop_last(), f) + if selects(f, rows.last()) {
            1nat
        } else {
            0nat
        }
    }
}

/// The addresses among `addrs` whose timestamp lies in `w`, over the first
/// `n` rows.
pub open spec fn active_upto(stamps: Seq<i64>, addrs: Seq<Seq<char>>, w: TimeWindow, n: int) -> Set<
    Seq<char>,
> {
    Set::new(
        |a: Seq<char>|
            exists|i: int| 0 <= i < n && in_window(w, stamps[i] as int) && #[trigger] addrs[i] == a,
    )
}

/// The distinct addresses active within `w`.
pub open spec fn active_set(stamps: Seq<i64>, addrs: Seq<Seq<char>>, w: TimeWindow) -> Set<
    Seq<char>,
> {
    active_upto(stamps, addrs, w, stamps.len() as int)
}

/// The timestamps of native transactions, row by row.
pub open spec fn native_stamps(rows: Seq<NativeTx>) -> Seq<i64> {
    rows.map_values(|t: NativeTx| t.timestamp)
}

/// The addresses of native transactions, row by row.
pub open spec fn native_addrs(rows: Seq<NativeTx>) -> Seq<Seq<char>> {
    rows.map_values(|t: NativeTx| t.address@)
}

/// The timestamps of EVM transactions, row by row.
pub open spec fn evm_stamps(rows: Seq<EvmTx>) -> Seq<i64> {
    rows.map_values(|t: EvmTx| t.timestamp)
}

/// The senders of EVM transactions, row by row.
pub open spec fn evm_addrs(rows: Seq<EvmTx>) -> Seq<Seq<char>> {
    rows.map_values(|t: EvmTx| t.sender@)
}

/// The distinct native addresses active within `w`.
pub open spec fn native_active(rows: Seq<NativeTx>, w: TimeWindow) -> Set<Seq<char>> {
    active_set(native_stamps(rows), native_addrs(rows), w)
}

/// The distinct EVM senders active within `w`.
pub open spec fn evm_active(rows: Seq<EvmTx>, w: TimeWindow) -> Set<Seq<char>> {
    active_set(evm_stamps(rows), evm_addrs(rows), w)
}

/// The characters of each string.
pub open spec fn string_views(v: Seq<String>) -> Seq<Seq<char>> {
    v.map_values(|s: String| s@)
}

impl NativeFilter {
    /// Whether transaction `t` belongs to the subset this filter selects.
    pub fn selects(&self, t: &NativeTx) -> (r: bool)
        ensures
            r == selects(*self, *t),
    {
        match self {
            NativeFilter::All => true,
            NativeFilter::Since(start) => t.timestamp >= *start,
            NativeFilter::HidesEither => hides_amount_or_type(&t.outputs),
            NativeFilter::HidesBoth => hides_amount_and_type(&t.outputs),
        }
    }
}

/// The number of native transactions that `f` selects.
pub fn count_native(rows: &Vec<NativeTx>, f: NativeFilter) -> (r: usize)
    ensures
        r == count_selected(rows@, f),
{
    let mut n: usize = 0;
    let mut i: usize = 0;
    while i < rows.len()
        invariant
            0 <= i <= rows.len(),
            n == count_selected(rows@.take(i as int), f),
            n <= i,
        decreases rows.len() - i,
    {
        proof {
            assert(rows@.take(i + 1).drop_last() =~= rows@.take(i as int));
        }
        if f.selects(&rows[i]) {
            n += 1;
        }
        i += 1;
    }
    proof {
        assert(rows@.take(i as int) =~= rows@);
    }
    n
}

/// Whether `a` is among the strings of `seen`.
fn contains_string(seen: &Vec<String>, a: &String) -> (r: bool)
    ensures
        r == string_views(seen@).contains(a@),
{
    let mut i: usize = 0;
    while i < seen.len()
        invariant
            0 <= i <= seen.len(),
            forall|j: int| 0 <= j < i ==> (#[trigger] seen@[j])@ != a@,
        decreases seen.len() - i,
    {
        if seen[i] == *a {
            proof {
                assert(string_views(seen@)[i as int] == a@);
            }
            return true;
        }
        i += 1;
    }
    proof {
        if string_views(seen@).contains(a@) {
            let j = choose|j: int| 0 <= j < seen@.len() && string_views(seen@)[j] == a@;
            assert(seen@[j]@ == a@);
        }
    }
    false
}

/// The number of distinct addresses whose timestamp lies in `w`, for rows
/// given as parallel timestamps and addresses.
fn count_distinct_active(stamps: &Vec<i64>, addrs: &Vec<String>, w: TimeWindow) -> (r: usize)
    requires
        stamps.len() == addrs.len(),
    ensures
        r == active_set(stamps@, string_views(addrs@), w).len(),
        active_set(stamps@, string_views(addrs@), w).finite(),
{
    let ghost av = string_views(addrs@);
    let mut seen: Vec<String> = Vec::new();
    let mut i: usize = 0;
    proof {
        assert(string_views(seen@).to_set() =~= active_upto(stamps@, av, w, 0));
    }
    while i < stamps.len()
        invariant
            0 <= i <= stamps.len(),
            stamps.len() == addrs.len(),
            av == string_views(addrs@),
            string_views(seen@).no_duplicates(),
            string_views(seen@).to_set() == active_upto(stamps@, av, w, i as int),
        decreases stamps.len() - i,
    {
        let ghost before = string_views(seen@);
        if w.contains(stamps[i]) && !contains_string(&seen, &addrs[i]) {
            seen.push(addrs[i].clone());
            proof {
                assert(string_views(seen@) =~= before.push(av[i as int]));
            }
        }
        proof {
            let next = active_upto(stamps@, av, w, i + 1);
            let cur = active_upto(stamps@, av, w, i as int);
            if in_window(w, stamps@[i as int] as int) {
                assert(next =~= cur.insert(av[i as int])) by {
                    assert forall|a: Seq<char>| next.contains(a) implies #[trigger] cur.insert(
                        av[i as int],
                    ).contains(a) by {
                        let j = choose|j: int|
                            0 <= j < i + 1 && in_window(w, stamps@[j] as int) && #[trigger] av[j]
                                == a;
                        if j < i {
                            assert(cur.contains(a));
                        }
                    }
                }
                assert(string_views(seen@).to_set() =~= next) by {
                    assert forall|a: Seq<char>| #[trigger]
                        string_views(seen@).to_set().contains(a) == next.contains(a) by {
                        if string_views(seen@).contains(a) {
                            let k = choose|k: int|
                                0 <= k < string_views(seen@).len() && string_views(seen@)[k] == a;
                            if k < before.len() {
                                assert(before.contains(a));
                            }
                        }
                        if before.contains(a) {
                            let k = choose|k: int| 0 <= k < before.len() && before[k] == a;
                            assert(string_views(seen@)[k] == a);
                        }
                        if a == av[i as int] && string_views(seen@) != before {
                            assert(string_views(seen@)[before.len() as int] == a);
                        }
                    }
                }
            } else {
                assert(next =~= cur) by {
                    assert forall|a: Seq<char>| next.contains(a) implies cur.contains(a) by {
                        let j = choose|j: int|
                            0 <= j < i + 1 && in_window(w, stamps@[j] as int) && #[trigger] av[j]
                                == a;
                        assert(j < i);
                    }
                }
            }
        }
        i += 1;
    }
    proof {
        string_views(seen@).unique_seq_to_set();
        assert(string_views(seen@).len() == seen@.len());
    }
    seen.len()
}

/// The number of distinct native addresses active within `w`.
pub fn native_address_count(rows: &Vec<NativeTx>, w: TimeWindow) -> (r: usize)
    ensures
        r == native_active(rows@, w).len(),
        native_active(rows@, w).finite(),
{
    let mut stamps: Vec<i64> = Vec::new();
    let mut addrs: Vec<String> = Vec::new();
    let mut i: usize = 0;
    while i < rows.len()
        invariant
            0 <= i <= rows.len(),
            stamps@ == native_stamps(rows@.take(i as int)),
            string_views(addrs@) == native_addrs(rows@.take(i as int)),
        decreases rows.len() - i,
    {
        stamps.push(rows[i].timestamp);
        let ghost prev = addrs@;
        addrs.push(rows[i].address.clone());
        proof {
            assert(string_views(addrs@) =~= string_views(prev).push(rows@[i as int].address@));
            assert(stamps@ =~= native_stamps(rows@.take(i + 1)));
            assert(string_views(addrs@) =~= native_addrs(rows@.take(i + 1)));
        }
        i += 1;
    }
    proof {
        assert(rows@.take(i as int) =~= rows@);
    }
    count_distinct_active(&stamps, &addrs, w)
}

/// The number of distinct EVM senders active within `w`.
pub fn evm_sender_count(rows: &Vec<EvmTx>, w: TimeWindow) -> (r: usize)
    ensures
        r == evm_active(rows@, w).len(),
        evm_active(rows@, w).finite(),
{
    let mut stamps: Vec<i64> = Vec::new();
    let mut addrs: Vec<String> = Vec::new();
    let mut i: usize = 0;
    while i < rows.len()
        invariant
            0 <= i <= rows.len(),
            stamps@ == evm_stamps(rows@.take(i as int)),
            string_views(addrs@) == evm_addrs(rows@.take(i as int)),
        decreases rows.len() - i,
    {
        stamps.push(rows[i].timestamp);
        let ghost prev = addrs@;
        addrs.push(rows[i].sender.clone());
        proof {
            assert(string_views(addrs@) =~= string_views(prev).push(rows@[i as int].sender@));
            assert(stamps@ =~= evm_stamps(rows@.take(i + 1)));
            assert(string_views(addrs@) =~= evm_addrs(rows@.take(i + 1)));
        }
        i += 1;
    }
    proof {
        assert(rows@.take(i as int) =~= rows@);
    }
    count_distinct_active(&stamps, &addrs, w)
}

/// No filter selects more rows than there are.
pub proof fn lemma_count_at_most_len(rows: Seq<NativeTx>, f: NativeFilter)
    ensures
        count_selected(rows, f) <= rows.len(),
        f == NativeFilter::All ==> count_selected(rows, f) == rows.len(),
    decreases rows.len(),
{
    if rows.len() > 0 {
        lemma_count_at_most_len(rows.drop_last(), f);
    }
}

/// Every transaction that conceals both fields of an output also conceals
/// either, so it is counted among both sets.
pub proof fn lemma_both_within_either(rows: Seq<NativeTx>)
    ensures
        count_selected(rows, NativeFilter::HidesBoth) <= count_selected(
            rows,
            NativeFilter::HidesEither,
        ),
    decreases rows.len(),
{
    if rows.len() > 0 {
        lemma_both_within_either(rows.drop_last());
        crate::classify::lemma_both_implies_either(rows.last().outputs@);
    }
}

/// Appending rows never lowers a count.
pub proof fn lemma_count_grows_with_appends(earlier: Seq<NativeTx>, later: Seq<NativeTx>, f: NativeFilter)
    requires
        earlier.len() <= later.len(),
        later.take(earlier.len() as int) == earlier,
    ensures
        count_selected(earlier, f) <= count_selected(later, f),
    decreases later.len(),
{
    if later.len() > earlier.len() {
        assert(later.drop_last().take(earlier.len() as int) =~= earlier);
        lemma_count_grows_with_appends(earlier, later.drop_last(), f);
    } else {
        assert(later =~= earlier);
    }
}

/// Daily transactions read twice on one local calendar day, with rows only
/// appended in between, never decrease: both reads count from the same local
/// midnight, over a ledger that only grew.
pub proof fn lemma_daily_count_monotone(
    earlier: Seq<NativeTx>,
    later: Seq<NativeTx>,
    now1: int,
    now2: int,
    offset: int,
    start1: i64,
    start2: i64,
)
    requires
        earlier.len() <= later.len(),
        later.take(earlier.len() as int) == earlier,
        local_day(now1, offset) == local_day(now2, offset),
        start1 == day_start(now1, offset),
        start2 == day_start(now2, offset),
    ensures
        start1 == start2,
        count_selected(earlier, NativeFilter::Since(start1)) <= count_selected(
            later,
            NativeFilter::Since(start2),
        ),
{
    lemma_count_grows_with_appends(earlier, later, NativeFilter::Since(start1));
}

/// No address lies in a window whose start is not below its end: the open
/// interval holds no timestamp.
pub proof fn lemma_empty_window_no_addresses(stamps: Seq<i64>, addrs: Seq<Seq<char>>, w: TimeWindow)
    requires
        w.start is Some,
        w.end is Some,
        w.start->Some_0 >= w.end->Some_0,
    ensures
        active_set(stamps, addrs, w) == Set::<Seq<char>>::empty(),
        active_set(stamps, addrs, w).len() == 0,
{
    assert(active_set(stamps, addrs, w) =~= Set::<Seq<char>>::empty());
}

/// Without bounds every row counts: the active addresses are all addresses.
pub proof fn lemma_unbounded_window_all_addresses(stamps: Seq<i64>, addrs: Seq<Seq<char>>, w: TimeWindow)
    requires
        w.start is None,
        w.end is None,
        stamps.len() == addrs.len(),
    ensures
        active_set(stamps, addrs, w) == addrs.to_set(),
{
    assert forall|a: Seq<char>| #[trigger] active_set(stamps, addrs, w).contains(a)
        == addrs.to_set().contains(a) by {
        if addrs.contains(a) {
            let i = choose|i: int| 0 <= i < addrs.len() && addrs[i] == a;
            assert(in_window(w, stamps[i] as int));
        }
    }
    assert(active_set(stamps, addrs, w) =~= addrs.to_set());
}

} // verus!
