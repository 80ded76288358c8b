use explorer::{
    address_count_plan, address_total, count_native, day_start_checked, distribute,
    distribution_plan, evm_sender_count, hides_amount_and_type, hides_amount_or_type,
    local_day_start, native_address_count, statistics_plan, AddressCountResult, CountQuery, EvmTx,
    Ledger, NativeFilter, NativeTx, TimeWindow, TransferOutput, V2ChainStatisticsResult,
    V2DistributeResult, V2StatisticsData, CODE_INTERNAL_ERROR, CODE_OK, SQL_EVM_SENDERS_BEFORE,
    SQL_NATIVE_ADDRESSES, SQL_NATIVE_ADDRESSES_AFTER, SQL_NATIVE_ADDRESSES_BETWEEN,
    SQL_NATIVE_HIDES_BOTH, SQL_TRANSACTIONS_SINCE,
};

fn out(asset_type_confidential: bool, amount_confidential: bool) -> TransferOutput {
    TransferOutput { asset_type_confidential, amount_confidential }
}

fn native(timestamp: i64, address: &str, outputs: Vec<TransferOutput>) -> NativeTx {
    NativeTx { timestamp, address: address.to_string(), outputs }
}

fn evm(timestamp: i64, sender: &str) -> EvmTx {
    EvmTx { timestamp, sender: sender.to_string() }
}

fn empty_ledger() -> Ledger {
    Ledger { transactions: vec![], evm_transactions: vec![], native_to_evm: 0, evm_to_native: 0 }
}

fn window(start: Option<i64>, end: Option<i64>) -> TimeWindow {
    TimeWindow { start, end }
}

/// Ten native transactions: three conceal a field, one of them both.
fn privacy_fixture() -> Ledger {
    let mut txs = vec![
        native(1, "a", vec![out(true, true)]),
        native(2, "b", vec![out(false, false), out(true, false)]),
        native(3, "c", vec![out(false, true)]),
    ];
    for i in 0..7 {
        txs.push(native(10 + i, "d", vec![out(false, false)]));
    }
    Ledger { transactions: txs, evm_transactions: vec![], native_to_evm: 0, evm_to_native: 0 }
}

#[test]
fn distribution_formula_counts_both_twice() {
    let d = distribute(10, 3, 1, 0, 0, 0).unwrap();
    assert_eq!(d.privacy, 4);
    assert_eq!(d.transparent, 6);
    assert_eq!(d.prism, 0);
    assert_eq!(d.evm_compatible, 0);
}

#[test]
fn distribution_of_ledger_fixture() {
    let r = privacy_fixture().distribution();
    assert_eq!(r.code, CODE_OK);
    assert_eq!(r.message, "");
    let d = r.data.unwrap();
    assert_eq!(d.privacy, 4);
    assert_eq!(d.transparent, 6);
    assert_eq!(d.transparent + d.privacy, 10);
}

#[test]
fn prism_sums_both_directions() {
    assert_eq!(distribute(0, 0, 0, 0, 2, 5).unwrap().prism, 7);
    assert_eq!(distribute(0, 0, 0, 0, 0, 0).unwrap().prism, 0);
    assert_eq!(distribute(0, 0, 0, 0, 0, 9).unwrap().prism, 9);
    assert_eq!(distribute(4, 1, 0, 8, 3, 0).unwrap().evm_compatible, 8);
}

#[test]
fn distribution_overflow_is_none() {
    assert!(distribute(0, 0, 0, 0, i64::MAX, 1).is_none());
    assert!(distribute(0, i64::MAX, 1, 0, 0, 0).is_none());
    assert!(distribute(i64::MIN, 1, 0, 0, 0, 0).is_none());
    assert_eq!(address_total(2, 3).unwrap().address_count, 5);
    assert!(address_total(i64::MAX, 1).is_none());
}

#[test]
fn classifier_reads_outputs() {
    let split = vec![out(true, false), out(false, true)];
    assert!(hides_amount_or_type(&split));
    assert!(!hides_amount_and_type(&split));
    let both = vec![out(false, false), out(true, true)];
    assert!(hides_amount_or_type(&both));
    assert!(hides_amount_and_type(&both));
    let plain = vec![out(false, false)];
    assert!(!hides_amount_or_type(&plain));
    assert!(!hides_amount_and_type(&plain));
    assert!(!hides_amount_or_type(&vec![]));
}

#[test]
fn window_bounds_are_strict() {
    let w = window(Some(100), None);
    assert!(!w.contains(100));
    assert!(w.contains(101));
    let w = window(None, Some(200));
    assert!(!w.contains(200));
    assert!(w.contains(199));
    assert!(TimeWindow::unbounded().contains(i64::MIN));
}

#[test]
fn start_bound_excludes_row_at_boundary() {
    let l = Ledger {
        transactions: vec![native(100, "at", vec![]), native(101, "after", vec![])],
        evm_transactions: vec![evm(100, "0xat"), evm(150, "0xafter")],
        native_to_evm: 0,
        evm_to_native: 0,
    };
    assert_eq!(native_address_count(&l.transactions, window(Some(100), None)), 1);
    assert_eq!(evm_sender_count(&l.evm_transactions, window(Some(100), None)), 1);
    let r = l.address_count(window(Some(100), None));
    assert_eq!(r.code, CODE_OK);
    assert_eq!(r.data.unwrap().address_count, 2);
}

#[test]
fn address_count_without_bounds_sums_distinct() {
    let l = Ledger {
        transactions: vec![native(1, "a", vec![]), native(2, "a", vec![]), native(3, "b", vec![])],
        evm_transactions: vec![evm(1, "a"), evm(2, "0x1"), evm(5, "0x1")],
        native_to_evm: 0,
        evm_to_native: 0,
    };
    let r = l.address_count(TimeWindow::unbounded());
    assert_eq!(r.code, CODE_OK);
    // "a" is active on both chains and counted on each
    assert_eq!(r.data.unwrap().address_count, 4);
}

#[test]
fn address_count_equal_bounds_is_zero() {
    let l = Ledger {
        transactions: vec![native(5, "a", vec![]), native(6, "b", vec![])],
        evm_transactions: vec![evm(5, "0x1")],
        native_to_evm: 0,
        evm_to_native: 0,
    };
    let r = l.address_count(window(Some(5), Some(5)));
    assert_eq!(r.code, CODE_OK);
    assert_eq!(r.data.unwrap().address_count, 0);
    let r = l.address_count(window(Some(7), Some(1)));
    assert_eq!(r.data.unwrap().address_count, 0);
    let r = l.address_count(window(Some(4), Some(6)));
    assert_eq!(r.data.unwrap().address_count, 2);
}

#[test]
fn local_midnight_values() {
    assert_eq!(local_day_start(100_000, 0), 86_400);
    assert_eq!(local_day_start(100_000, 3_600), 82_800);
    assert_eq!(local_day_start(100_000, -18_000), 18_000);
    assert_eq!(local_day_start(86_400, 0), 86_400);
    assert_eq!(local_day_start(-1, 0), -86_400);
}

#[test]
fn daily_count_same_day_does_not_decrease() {
    let offset = 7_200;
    let first = local_day_start(1_000_000, offset);
    let second = local_day_start(1_000_000 + 3_000, offset);
    assert_eq!(first, second);
    let mut txs = vec![native(first - 1, "a", vec![]), native(first, "b", vec![])];
    let before = count_native(&txs, NativeFilter::Since(first));
    assert_eq!(before, 1);
    txs.push(native(first + 10, "c", vec![]));
    let after = count_native(&txs, NativeFilter::Since(second));
    assert_eq!(after, 2);
    assert!(after >= before);
}

#[test]
fn checked_day_start_rejects_out_of_range() {
    assert_eq!(day_start_checked(100_000, 3_600), Some(82_800));
    assert_eq!(day_start_checked(100_000, -18_000), Some(18_000));
    assert_eq!(day_start_checked(100_000, 86_400), None);
    assert_eq!(day_start_checked(100_000, -86_400), None);
    assert_eq!(day_start_checked(i64::MIN, 0), None);
    assert_eq!(day_start_checked(i64::MIN + 86_400, 0), Some(i64::MIN + 86_400 - (i64::MIN + 86_400).rem_euclid(86_400)));
}

#[test]
fn empty_ledger_gives_zeros() {
    let l = empty_ledger();
    let s = l.statistics(0);
    assert_eq!(s.code, 200);
    assert_eq!(s.data, Some(V2StatisticsData { active_addrs: 0, total_txs: 0, daily_txs: 0 }));
    let d = l.distribution();
    assert_eq!(d.code, 200);
    let d = d.data.unwrap();
    assert_eq!((d.transparent, d.privacy, d.prism, d.evm_compatible), (0, 0, 0, 0));
    let a = l.address_count(TimeWindow::unbounded());
    assert_eq!(a.code, 200);
    assert_eq!(a.data.unwrap().address_count, 0);
}

#[test]
fn statistics_of_ledger() {
    let l = Ledger {
        transactions: vec![
            native(10, "a", vec![]),
            native(20, "a", vec![]),
            native(30, "b", vec![]),
        ],
        evm_transactions: vec![evm(1, "0x1")],
        native_to_evm: 0,
        evm_to_native: 0,
    };
    let s = l.statistics(20);
    assert_eq!(s.code, CODE_OK);
    assert_eq!(s.data, Some(V2StatisticsData { active_addrs: 2, total_txs: 3, daily_txs: 2 }));
}

#[test]
fn failures_give_no_record() {
    let s = V2ChainStatisticsResult::from_counts(Err("connection refused".to_string()));
    assert_eq!(s.code, CODE_INTERNAL_ERROR);
    assert_eq!(s.message, "connection refused");
    assert!(s.data.is_none());
    let d = V2DistributeResult::from_counts(Err("timeout".to_string()));
    assert_eq!(d.code, 500);
    assert!(d.data.is_none());
    let a = AddressCountResult::from_counts(Err("no row".to_string()));
    assert_eq!(a.code, 500);
    assert!(a.data.is_none());
}

#[test]
fn malformed_or_overflowing_counts_fail() {
    let s = V2ChainStatisticsResult::from_counts(Ok(vec![1, 2]));
    assert_eq!(s.code, 500);
    assert!(s.data.is_none());
    let d = V2DistributeResult::from_counts(Ok(vec![0, 0, 0, 0, i64::MAX, 1]));
    assert_eq!(d.code, 500);
    assert!(d.data.is_none());
    let a = AddressCountResult::from_counts(Ok(vec![i64::MAX, 1]));
    assert_eq!(a.code, 500);
    assert!(a.data.is_none());
}

#[test]
fn counts_fold_in_plan_order() {
    let s = V2ChainStatisticsResult::from_counts(Ok(vec![7, 3, 2]));
    assert_eq!(s.code, 200);
    assert_eq!(s.message, "");
    assert_eq!(s.data, Some(V2StatisticsData { total_txs: 7, active_addrs: 3, daily_txs: 2 }));
    let d = V2DistributeResult::from_counts(Ok(vec![10, 3, 1, 8, 2, 5])).data.unwrap();
    assert_eq!((d.transparent, d.privacy, d.prism, d.evm_compatible), (6, 4, 7, 8));
    let a = AddressCountResult::from_counts(Ok(vec![4, 5]));
    assert_eq!(a.data.unwrap().address_count, 9);
}

#[test]
fn plans_name_their_queries() {
    assert_eq!(
        statistics_plan(42),
        vec![
            CountQuery::Transactions,
            CountQuery::NativeAddresses(TimeWindow::unbounded()),
            CountQuery::TransactionsSince(42),
        ]
    );
    assert_eq!(distribution_plan().len(), 6);
    assert_eq!(distribution_plan()[2], CountQuery::NativeHidesBoth);
    let w = window(Some(1), None);
    assert_eq!(
        address_count_plan(w),
        vec![CountQuery::NativeAddresses(w), CountQuery::EvmSenders(w)]
    );
}

#[test]
fn queries_name_their_sql_and_binds() {
    let both = CountQuery::NativeAddresses(window(Some(3), Some(9)));
    assert_eq!(both.sql(), SQL_NATIVE_ADDRESSES_BETWEEN);
    assert_eq!(both.bind_values(), vec![3, 9]);
    let after = CountQuery::NativeAddresses(window(Some(3), None));
    assert_eq!(after.sql(), SQL_NATIVE_ADDRESSES_AFTER);
    assert_eq!(after.bind_values(), vec![3]);
    let before = CountQuery::EvmSenders(window(None, Some(9)));
    assert_eq!(before.sql(), SQL_EVM_SENDERS_BEFORE);
    assert_eq!(before.bind_values(), vec![9]);
    let none = CountQuery::NativeAddresses(TimeWindow::unbounded());
    assert_eq!(none.sql(), SQL_NATIVE_ADDRESSES);
    assert!(none.bind_values().is_empty());
    assert_eq!(CountQuery::TransactionsSince(5).sql(), SQL_TRANSACTIONS_SINCE);
    assert_eq!(CountQuery::TransactionsSince(5).bind_values(), vec![5]);
    assert_eq!(CountQuery::NativeHidesBoth.sql(), SQL_NATIVE_HIDES_BOTH);
    assert!(CountQuery::NativeHidesBoth.bind_values().is_empty());
    assert_eq!(
        SQL_NATIVE_ADDRESSES_AFTER,
        "SELECT count(DISTINCT address) AS cnt FROM native_txs WHERE timestamp > $1"
    );
    assert!(!TimeWindow::unbounded().is_bounded());
}

#[test]
fn ledger_runs_plan() {
    let l = privacy_fixture();
    assert_eq!(l.run(&distribution_plan()).unwrap(), vec![10, 3, 1, 0, 0, 0]);
    assert_eq!(l.count(CountQuery::NativeAddresses(TimeWindow::unbounded())), 4);
    assert_eq!(l.count(CountQuery::TransactionsSince(11)), 6);
}
