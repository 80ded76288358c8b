//! The three summary records, the formulas that fold counts into them, and
//! the envelope `{code, message, data}` that carries each to a caller.
use vstd::prelude::*;

verus! {

/// Envelope code of a computed record.
pub const CODE_OK: i32 = 200;

/// Envelope code reserved for "not found"; no aggregation produces it.
pub const CODE_NOT_FOUND: i32 = 404;

/// Envelope code of a failed aggregation.
pub const CODE_INTERNAL_ERROR: i32 = 500;

/// Network-wide statistics.
#[derive(Clone, Copy, Debug, PartialEq, Eq, Structural)]
pub struct V2StatisticsData {
    pub active_addrs: i64,
    pub total_txs: i64,
    pub daily_txs: i64,
}

/// The envelope of [`V2StatisticsData`].
#[derive(Debug)]
pub struct V2ChainStatisticsResult {
    pub code: i32,
    pub message: String,
    pub data: Option<V2StatisticsData>,
}

/// How transactions spread over the transport and privacy categories.
#[derive(Clone, Copy, Debug, PartialEq, Eq, Structural)]
pub struct V2TxsDistribute {
    pub transparent: i64,
    pub privacy: i64,
    pub prism: i64,
    pub evm_compatible: i64,
}

/// The envelope of [`V2TxsDistribute`].
#[derive(Debug)]
pub struct V2DistributeResult {
    pub code: i32,
    pub message: String,
    pub data: Option<V2TxsDistribute>,
}

/// The number of addresses active on the two chains, summed.
#[derive(Clone, Copy, Debug, PartialEq, Eq, Structural)]
pub struct AddressCount {
    pub address_count: i64,
}

/// The envelope of [`AddressCount`].
#[derive(Debug)]
pub struct AddressCountResult {
    pub code: i32,
    pub message: String,
    pub data: Option<AddressCount>,
}

/// Whether `x` is within the range of `i64`.
pub open spec fn fits_i64(x: int) -> bool {
    i64::MIN <= x <= i64::MAX
}

/// The distribution formula over the six counts it reads. `privacy` adds the
/// transactions that conceal both fields to those that conceal either, so a
/// transaction of the first kind is counted twice.
pub open spec fn distribution_of(
    native: int,
    hide_either: int,
    hide_both: int,
    evm: int,
    n2e: int,
    e2n: int,
) -> (int, int, int, int) {
    let privacy = hide_either + hide_both;
    (native - privacy, privacy, n2e + e2n, evm)
}

/// Whether every figure of the formula is an `i64`.
pub open spec fn distribution_fits(
    native: int,
    hide_either: int,
    hide_both: int,
    evm: int,
    n2e: int,
    e2n: int,
) -> bool {
    let d = distribution_of(native, hide_either, hide_both, evm, n2e, e2n);
    fits_i64(d.0) && fits_i64(d.1) && fits_i64(d.2)
}

/// Whether `d` holds the figures of the formula.
pub open spec fn is_distribution(
    d: V2TxsDistribute,
    native: int,
    hide_either: int,
    hide_both: int,
    evm: int,
    n2e: int,
    e2n: int,
) -> bool {
    let f = distribution_of(native, hide_either, hide_both, evm, n2e, e2n);
    d.transparent == f.0 && d.privacy == f.1 && d.prism == f.2 && d.evm_compatible == f.3
}

/// Folds the six counts into a distribution; `None` where a figure leaves
/// the range of `i64`.
pub fn distribute(
    native_count: i64,
    hide_either: i64,
    hide_both: i64,
    evm_count: i64,
    n2e_count: i64,
    e2n_count: i64,
) -> (r: Option<V2TxsDistribute>)
    ensures
        r is Some <==> distribution_fits(
            native_count as int,
            hide_either as int,
            hide_both as int,
            evm_count as int,
            n2e_count as int,
            e2n_count as int,
        ),
        r matches Some(d) ==> is_distribution(
            d,
            native_count as int,
            hide_either as int,
            hide_both as int,
            evm_count as int,
            n2e_count as int,
            e2n_count as int,
        ),
{
    let privacy = match hide_either.checked_add(hide_both) {
        Some(p) => p,
        None => return None,
    };
    let transparent = match native_count.checked_sub(privacy) {
        Some(t) => t,
        None => return None,
    };
    let prism = match n2e_count.checked_add(e2n_count) {
        Some(p) => p,
        None => return None,
    };
    Some(V2TxsDistribute { transparent, privacy, prism, evm_compatible: evm_count })
}

/// The sum of the native and EVM address counts; `None` where it leaves the
/// range of `i64`.
pub fn address_total(native_count: i64, evm_count: i64) -> (r: Option<AddressCount>)
    ensures
        r is Some <==> fits_i64(native_count + evm_count),
        r matches Some(c) ==> c.address_count == native_count + evm_count,
{
    match native_count.checked_add(evm_count) {
        Some(n) => Some(AddressCount { address_count: n }),
        None => None,
    }
}

/// The message of a failure that the counts themselves reveal.
fn malformed_counts() -> (r: String) {
    "unexpected shape of the count results".to_owned()
}

/// The message of a failure through a figure that overflows.
fn figure_out_of_range() -> (r: String) {
    "a figure is out of range".to_owned()
}

impl V2ChainStatisticsResult {
    /// A computed record.
    pub fn success(data: V2StatisticsData) -> (r: Self)
        ensures
            r.code == CODE_OK,
            r.message@.len() == 0,
            r.data == Some(data),
    {
        V2ChainStatisticsResult { code: CODE_OK, message: String::new(), data: Some(data) }
    }

    /// A failed aggregation: no record.
    pub fn failure(message: String) -> (r: Self)
        ensures
            r.code == CODE_INTERNAL_ERROR,
            r.message == message,
            r.data is None,
    {
        V2ChainStatisticsResult { code: CODE_INTERNAL_ERROR, message, data: None }
    }

    /// Folds the outcome of the statistics queries, in the order
    /// total transactions, active addresses, daily transactions. Any failure
    /// gives the failure envelope, never part of a record.
    pub fn from_counts(counts: Result<Vec<i64>, String>) -> (r: Self)
        ensures
            match counts {
                Ok(v) => if v.len() == 3 {
                    &&& r.code == CODE_OK
                    &&& r.message@.len() == 0
                    &&& r.data == Some(
                        (V2StatisticsData { total_txs: v[0], active_addrs: v[1], daily_txs: v[2] }),
                    )
                } else {
                    r.code == CODE_INTERNAL_ERROR && r.data is None
                },
                Err(m) => r.code == CODE_INTERNAL_ERROR && r.message == m && r.data is None,
            },
    {
        match counts {
            Err(m) => Self::failure(m),
            Ok(v) => {
                if v.len() != 3 {
                    Self::failure(malformed_counts())
                } else {
                    Self::success(
                        V2StatisticsData { total_txs: v[0], active_addrs: v[1], daily_txs: v[2] },
                    )
                }
            },
        }
    }
}

impl V2DistributeResult {
    /// A computed record.
    pub fn success(data: V2TxsDistribute) -> (r: Self)
        ensures
            r.code == CODE_OK,
            r.message@.len() == 0,
            r.data == Some(data),
    {
        V2DistributeResult { code: CODE_OK, message: String::new(), data: Some(data) }
    }

    /// A failed aggregation: no record.
    pub fn failure(message: String) -> (r: Self)
        ensures
            r.code == CODE_INTERNAL_ERROR,
            r.message == message,
            r.data is None,
    {
        V2DistributeResult { code: CODE_INTERNAL_ERROR, message, data: None }
    }

    /// Folds the outcome of the distribution queries, in the order native
    /// transactions, those concealing either field, those concealing both,
    /// EVM transactions, native-to-EVM and EVM-to-native bridge events. Any
    /// failure gives the failure envelope, never part of a record.
    pub fn from_counts(counts: Result<Vec<i64>, String>) -> (r: Self)
        ensures
            match counts {
                Ok(v) => if v.len() == 6 && distribution_fits(
                    v[0] as int,
                    v[1] as int,
                    v[2] as int,
                    v[3] as int,
                    v[4] as int,
                    v[5] as int,
                ) {
                    &&& r.code == CODE_OK
                    &&& r.message@.len() == 0
                    &&& r.data matches Some(d)
                    &&& is_distribution(
                        d,
                        v[0] as int,
                        v[1] as int,
                        v[2] as int,
                        v[3] as int,
                        v[4] as int,
                        v[5] as int,
                    )
                } else {
                    r.code == CODE_INTERNAL_ERROR && r.data is None
                },
                Err(m) => r.code == CODE_INTERNAL_ERROR && r.message == m && r.data is None,
            },
    {
        match counts {
            Err(m) => Self::failure(m),
            Ok(v) => {
                if v.len() != 6 {
                    Self::failure(malformed_counts())
                } else {
                    match distribute(v[0], v[1], v[2], v[3], v[4], v[5]) {
                        Some(d) => Self::success(d),
                        None => Self::failure(figure_out_of_range()),
                    }
                }
            },
        }
    }
}

impl AddressCountResult {
    /// A computed record.
    pub fn success(data: AddressCount) -> (r: Self)
        ensures
            r.code == CODE_OK,
            r.message@.len() == 0,
            r.data == Some(data),
    {
        AddressCountResult { code: CODE_OK, message: String::new(), data: Some(data) }
    }

    /// A failed aggregation: no record.
    pub fn failure(message: String) -> (r: Self)
        ensures
            r.code == CODE_INTERNAL_ERROR,
            r.message == message,
            r.data is None,
    {
        AddressCountResult { code: CODE_INTERNAL_ERROR, message, data: None }
    }

    /// Folds the outcome of the address queries, in the order native
    /// addresses, EVM senders. Any failure gives the failure envelope.
    pub fn from_counts(counts: Result<Vec<i64>, String>) -> (r: Self)
        ensures
            match counts {
                Ok(v) => if v.len() == 2 && fits_i64(v[0] + v[1]) {
                    &&& r.code == CODE_OK
                    &&& r.message@.len() == 0
                    &&& r.data == Some((AddressCount { address_count: (v[0] + v[1]) as i64 }))
                } else {
                    r.code == CODE_INTERNAL_ERROR && r.data is None
                },
                Err(m) => r.code == CODE_INTERNAL_ERROR && r.message == m && r.data is None,
            },
    {
        match counts {
            Err(m) => Self::failure(m),
            Ok(v) => {
                if v.len() != 2 {
                    Self::failure(malformed_counts())
                } else {
                    match address_total(v[0], v[1]) {
                        Some(c) => Self::success(c),
                        None => Self::failure(figure_out_of_range()),
                    }
                }
            },
        }
    }
}

} // verus!
