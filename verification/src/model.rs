//! Data model of the report pipeline: holders, token metadata, enriched
//! balances and the final report, together with the error taxonomy.
//!
//! Quantities that upstream services report as decimals (balances, shares,
//! prices) are carried as decimal strings so that no precision is lost to
//! binary floating point.

use vstd::prelude::*;

verus! {

/// Every failure the pipeline distinguishes.
#[derive(Clone, Copy, Debug, PartialEq, Eq, Structural)]
pub enum WhaleError {
    /// The input is not a well-formed 20-byte hex account identifier.
    InvalidAddressFormat,
    /// The indexing API key is absent; no network call is attempted.
    MissingCredential,
    /// The indexing API could not be reached.
    UpstreamUnavailable,
    /// The indexing API answered with a body that does not match the schema.
    UpstreamMalformed,
    /// A single balance query timed out.
    RpcTimeout,
    /// The balance endpoint could not be reached.
    RpcUnavailable,
    /// An internal invariant was violated while assembling the report.
    InternalConsistency,
}

/// One holder of the token, as reported by the indexing API.
#[derive(Clone, Debug, PartialEq, Eq)]
pub struct Holder {
    /// Hex account identifier of the holder.
    pub address: String,
    /// Token-denominated holding, as a decimal string.
    pub balance: String,
    /// Fraction of the total supply, as a decimal string.
    pub share: String,
}

/// Price block of the token metadata. Fields the API may omit are optional.
#[derive(Clone, Debug, PartialEq, Eq)]
pub struct TokenPrice {
    /// Current rate, as a decimal string.
    pub rate: String,
    /// Currency of the rate.
    pub currency: String,
    /// 24-hour rate difference in percent, if reported.
    pub diff_24h: Option<String>,
    /// 7-day rate difference in percent, if reported.
    pub diff_7d: Option<String>,
    /// 30-day rate difference in percent, if reported.
    pub diff_30d: Option<String>,
    /// Market capitalization, if reported.
    pub market_cap: Option<String>,
    /// 24-hour volume, if reported.
    pub volume_24h: Option<String>,
}

/// Metadata of the token whose holders are reported.
#[derive(Clone, Debug, PartialEq, Eq)]
pub struct TokenMetadata {
    /// Hex account identifier of the token contract.
    pub address: String,
    /// Token name.
    pub name: String,
    /// Token symbol.
    pub symbol: String,
    /// Number of significant digits, as reported.
    pub decimals: String,
    /// Total token supply, as a decimal string.
    pub total_supply: String,
    /// Total number of token holders, as a decimal string.
    pub holders_count: String,
    /// Price information.
    pub price: TokenPrice,
}

/// The native-currency balance of one holder, or the explicit marker that
/// its balance query failed and the entry is degraded rather than dropped.
#[derive(Clone, Debug, PartialEq, Eq)]
pub enum NativeBalance {
    /// The balance in the chain's base unit, as a decimal string.
    Available(String),
    /// The balance query for this holder failed.
    Unavailable,
}

/// One holder together with the outcome of its native-balance query.
#[derive(Clone, Debug, PartialEq, Eq)]
pub struct HolderBalance {
    /// The holder, exactly as it stood in the input list.
    pub holder: Holder,
    /// Its native balance, or the explicit degradation marker.
    pub native_balance: NativeBalance,
}

/// What one enrichment run produced: the ordered balances and the advisory
/// wall-clock duration of the fan-out phase.
#[derive(Clone, Debug, PartialEq, Eq)]
pub struct EnrichmentResult {
    /// One entry per input holder, in input order.
    pub balances: Vec<HolderBalance>,
    /// Wall-clock duration of the fan-out, in milliseconds; advisory only.
    pub elapsed_millis: u64,
}

/// The final report handed to the output sink.
#[derive(Clone, Debug, PartialEq, Eq)]
pub struct Report {
    /// Hex account identifier of the token.
    pub token: String,
    /// Token name.
    pub name: String,
    /// Token symbol.
    pub symbol: String,
    /// Current price rate, as a decimal string.
    pub price: String,
    /// Total number of token holders, as a decimal string.
    pub holders_count: String,
    /// The enriched holder balances, in holder-list order.
    pub data: Vec<HolderBalance>,
}

} // verus!
