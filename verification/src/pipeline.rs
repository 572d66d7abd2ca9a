//! Decisions of the report pipeline around the two upstream fetches.
//!
//! The pipeline runs in stages: plan the holder-list and metadata
//! requests (credential and input checks, before any network call), join
//! their outcomes (a barrier — both must succeed, either failure aborts
//! the run), plan the enrichment queries (none when the join failed),
//! and assemble the final report. The network calls themselves happen
//! outside the library, which only receives their classified outcomes.

use vstd::prelude::*;

use crate::addresses::{is_valid_address, valid_address};
use crate::enrich::{plan_balance_queries, spec_balance_queries, BalanceQuery};
use crate::model::{EnrichmentResult, Holder, Report, TokenMetadata, WhaleError};

verus! {

/// Configuration handed to the pipeline: the indexing API credential, if
/// one was supplied.
pub struct Config {
    /// The API key for the indexing API, if configured.
    pub api_key: Option<String>,
}

/// A usable credential was supplied: present and non-empty.
pub open spec fn has_credential(config: Config) -> bool {
    config.api_key matches Some(k) && k@.len() > 0
}

/// How one upstream request ended, as classified by the transport layer:
/// a parsed document, a transport failure, or a body that did not match
/// the expected schema.
pub enum UpstreamOutcome<T> {
    /// The response parsed into the expected document.
    Data(T),
    /// The request could not be carried out at the transport level.
    TransportError,
    /// The response body did not parse into the expected schema.
    MalformedBody,
}

/// The two requests to issue concurrently against the indexing API: the
/// top holders of the token, and the token's metadata.
#[derive(Clone, Debug, PartialEq, Eq)]
pub struct SourceRequest {
    /// The token address both requests are about.
    pub token: String,
    /// How many top holders to request; positive.
    pub limit: u8,
    /// The credential to present.
    pub api_key: String,
}

/// Plan the two upstream requests for a report run.
///
/// Fails with `MissingCredential` when no usable API key is configured —
/// checked first, before anything else and before any network call — and
/// with `InvalidAddressFormat` when the token is not a well-formed hex
/// account identifier. Otherwise both requests are to be issued, with
/// the token, limit and key exactly as given.
pub fn plan_source_fetch(config: &Config, token: String, limit: u8) -> (r: Result<
    SourceRequest,
    WhaleError,
>)
    requires
        limit >= 1,
    ensures
        r is Ok <==> has_credential(*config) && valid_address(token@),
        !has_credential(*config) ==> r == Err::<SourceRequest, WhaleError>(
            WhaleError::MissingCredential,
        ),
        has_credential(*config) && !valid_address(token@) ==> r == Err::<
            SourceRequest,
            WhaleError,
        >(WhaleError::InvalidAddressFormat),
        r matches Ok(req) ==> req.token == token && req.limit == limit && Some(req.api_key)
            == config.api_key,
{
    let key = match &config.api_key {
        Some(k) => {
            if k.as_str().unicode_len() == 0 {
                return Err(WhaleError::MissingCredential);
            }
            k.clone()
        },
        None => {
            return Err(WhaleError::MissingCredential);
        },
    };
    if !is_valid_address(token.as_str()) {
        return Err(WhaleError::InvalidAddressFormat);
    }
    Ok(SourceRequest { token, limit, api_key: key })
}

/// How the barrier decides: both documents in hand exactly when both
/// fetches succeeded; otherwise the first failure, the holder list being
/// looked at before the metadata, a transport failure surfacing as
/// `UpstreamUnavailable` and a schema mismatch as `UpstreamMalformed`.
pub open spec fn spec_join(
    holders: UpstreamOutcome<Vec<Holder>>,
    metadata: UpstreamOutcome<TokenMetadata>,
) -> Result<(Vec<Holder>, TokenMetadata), WhaleError> {
    match holders {
        UpstreamOutcome::Data(h) => match metadata {
            UpstreamOutcome::Data(m) => Ok((h, m)),
            UpstreamOutcome::TransportError => Err(WhaleError::UpstreamUnavailable),
            UpstreamOutcome::MalformedBody => Err(WhaleError::UpstreamMalformed),
        },
        UpstreamOutcome::TransportError => Err(WhaleError::UpstreamUnavailable),
        UpstreamOutcome::MalformedBody => Err(WhaleError::UpstreamMalformed),
    }
}

/// Join the two concurrent upstream fetches — the barrier before
/// enrichment.
///
/// Succeeds exactly when both documents arrived and parsed, handing both
/// on unchanged. Either failure fails the whole report: a transport
/// failure as `UpstreamUnavailable`, a schema mismatch as
/// `UpstreamMalformed`, the holder list being looked at first when both
/// went wrong. No partial metadata ever leaves this barrier.
pub fn join_sources(holders: UpstreamOutcome<Vec<Holder>>, metadata: UpstreamOutcome<
    TokenMetadata,
>) -> (r: Result<(Vec<Holder>, TokenMetadata), WhaleError>)
    ensures
        r == spec_join(holders, metadata),
        r is Ok <==> holders is Data && metadata is Data,
{
    let h = match holders {
        UpstreamOutcome::Data(h) => h,
        UpstreamOutcome::TransportError => {
            return Err(WhaleError::UpstreamUnavailable);
        },
        UpstreamOutcome::MalformedBody => {
            return Err(WhaleError::UpstreamMalformed);
        },
    };
    let m = match metadata {
        UpstreamOutcome::Data(m) => m,
        UpstreamOutcome::TransportError => {
            return Err(WhaleError::UpstreamUnavailable);
        },
        UpstreamOutcome::MalformedBody => {
            return Err(WhaleError::UpstreamMalformed);
        },
    };
    Ok((h, m))
}

/// The queries a join outcome allows: none after a failed join, one per
/// holder after a successful one.
pub open spec fn spec_enrichment_requests(
    joined: Result<(Vec<Holder>, TokenMetadata), WhaleError>,
) -> Seq<BalanceQuery> {
    match joined {
        Ok(p) => spec_balance_queries(p.0@),
        Err(_) => Seq::empty(),
    }
}

/// The balance queries the enrichment fan-out is allowed to issue, given
/// how the join ended.
///
/// A failed join issues no query at all — an unreachable or malformed
/// upstream means no enrichment fetch is ever sent. A successful join
/// issues exactly one query per holder, in order, each holder with a
/// malformed address being rejected locally instead of queried.
pub fn enrichment_requests(joined: &Result<(Vec<Holder>, TokenMetadata), WhaleError>) -> (r: Vec<
    BalanceQuery,
>)
    ensures
        r@ == spec_enrichment_requests(*joined),
        joined is Err ==> r@.len() == 0,
        joined matches Ok(p) ==> r@.len() == p.0@.len(),
{
    match joined {
        Ok(p) => plan_balance_queries(&p.0),
        Err(_) => {
            proof {
                assert(Seq::<BalanceQuery>::empty() =~= spec_enrichment_requests(*joined));
            }
            Vec::new()
        },
    }
}

/// An unreachable indexing API stops the run before enrichment.
///
/// When the holder-list fetch fails at the transport level, the join
/// fails the whole report with `UpstreamUnavailable` — whatever the
/// metadata fetch did — and the failed join allows no balance query, so
/// no enrichment fetch is ever issued.
pub proof fn lemma_unreachable_upstream_stops_run(
    holders: UpstreamOutcome<Vec<Holder>>,
    metadata: UpstreamOutcome<TokenMetadata>,
)
    requires
        holders is TransportError,
    ensures
        spec_join(holders, metadata) == Err::<(Vec<Holder>, TokenMetadata), WhaleError>(
            WhaleError::UpstreamUnavailable,
        ),
        spec_enrichment_requests(spec_join(holders, metadata)).len() == 0,
{
}

/// Assemble the final report — a pure merge.
///
/// Succeeds exactly when the enrichment produced one entry per holder of
/// the joined holder list; any other length is an internal-consistency
/// defect, never a user-facing condition. The report carries the token,
/// the metadata's name, symbol, price rate and holder count, and the
/// enriched balances unchanged and in order.
pub fn assemble(token: String, metadata: TokenMetadata, enrichment: EnrichmentResult,
    expected_entries: usize) -> (r: Result<Report, WhaleError>)
    ensures
        r is Ok <==> enrichment.balances@.len() == expected_entries,
        r matches Ok(rep) ==> rep.token == token && rep.name == metadata.name && rep.symbol
            == metadata.symbol && rep.price == metadata.price.rate && rep.holders_count
            == metadata.holders_count && rep.data == enrichment.balances,
        r matches Err(e) ==> e == WhaleError::InternalConsistency,
{
    if enrichment.balances.len() != expected_entries {
        return Err(WhaleError::InternalConsistency);
    }
    Ok(Report {
        token,
        name: metadata.name,
        symbol: metadata.symbol,
        price: metadata.price.rate,
        holders_count: metadata.holders_count,
        data: enrichment.balances,
    })
}

} // verus!
