//! Read-only analytics over an explorer's ledger: network statistics, the
//! distribution of transactions over transport and privacy categories, and
//! the number of active addresses within a time window.
mod classify;
mod ledger;
mod query;
mod report;
mod window;

pub use classify::{hides_amount_and_type, hides_amount_or_type, lemma_both_implies_either, TransferOutput};
pub use ledger::{
    count_native, evm_sender_count, lemma_both_within_either, lemma_count_at_most_len,
    lemma_count_grows_with_appends, lemma_daily_count_monotone, lemma_empty_window_no_addresses,
    lemma_unbounded_window_all_addresses, native_address_count, EvmTx, NativeFilter, NativeTx,
};
pub use query::{
    address_count_plan, distribution_plan, lemma_address_count_window_edges,
    lemma_privacy_counts_both_twice, statistics_plan, CountQuery, Ledger, SQL_EVM_SENDERS, SQL_EVM_SENDERS_AFTER,
    SQL_EVM_SENDERS_BEFORE, SQL_EVM_SENDERS_BETWEEN, SQL_EVM_TO_NATIVE, SQL_EVM_TRANSACTIONS,
    SQL_NATIVE_ADDRESSES, SQL_NATIVE_ADDRESSES_AFTER, SQL_NATIVE_ADDRESSES_BEFORE,
    SQL_NATIVE_ADDRESSES_BETWEEN, SQL_NATIVE_HIDES_BOTH, SQL_NATIVE_HIDES_EITHER,
    SQL_NATIVE_TO_EVM, SQL_NATIVE_TRANSACTIONS, SQL_TRANSACTIONS, SQL_TRANSACTIONS_SINCE,
};
pub use report::{
    address_total, distribute, AddressCount, AddressCountResult, V2ChainStatisticsResult,
    V2DistributeResult, V2StatisticsData, V2TxsDistribute, CODE_INTERNAL_ERROR, CODE_NOT_FOUND,
    CODE_OK,
};
pub use window::{
    day_start_checked, local_day_start, TimeWindow, SECONDS_PER_DAY,
};
