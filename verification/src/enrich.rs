//! The enrichment orchestrator's decision core.
//!
//! The fan-out itself — one concurrent balance query per holder against a
//! shared endpoint — is network work and runs outside the library. What
//! is decided here, and proved: which queries are issued for a holder
//! list, that the enriched sequence keeps the input order and length
//! whatever order the queries complete in, that a failed query degrades
//! exactly its own entry to the explicit "unavailable" marker, and when a
//! batch counts as a total failure.

use vstd::prelude::*;

use crate::addresses::{is_valid_address, valid_address};
use crate::model::{EnrichmentResult, Holder, HolderBalance, NativeBalance, WhaleError};

verus! {

/// What one balance query came back with. `BadAddress` is decided before
/// any network call; the two network failures are reported by the
/// transport.
#[derive(Clone, Debug, PartialEq, Eq)]
pub enum FetchOutcome {
    /// The native balance in base units, as a decimal string.
    Balance(String),
    /// The holder's address failed validation; no query was issued.
    BadAddress,
    /// The query timed out.
    Timeout,
    /// The endpoint could not be reached for this query.
    Unreachable,
}

/// The balance query planned for one holder: issue one, or reject the
/// holder's address locally without any network call.
#[derive(Clone, Debug, PartialEq, Eq)]
pub enum BalanceQuery {
    /// Query the balance of this (validated) address.
    Query(String),
    /// The address is malformed; its outcome is `BadAddress`.
    Rejected,
}

/// The enriched entry for one holder and the outcome of its query: the
/// holder unchanged, with its balance or the explicit degradation marker.
pub open spec fn spec_enriched_entry(h: Holder, o: FetchOutcome) -> HolderBalance {
    HolderBalance {
        holder: h,
        native_balance: match o {
            FetchOutcome::Balance(b) => NativeBalance::Available(b),
            _ => NativeBalance::Unavailable,
        },
    }
}

/// The enriched sequence: entry `i` pairs holder `i` with outcome `i`.
pub open spec fn spec_enrichment(holders: Seq<Holder>, outcomes: Seq<FetchOutcome>) -> Seq<
    HolderBalance,
> {
    Seq::new(holders.len(), |i: int| spec_enriched_entry(holders[i], outcomes[i]))
}

/// A batch failed totally: there was at least one query and every one of
/// them found the endpoint unreachable.
pub open spec fn spec_total_failure(outcomes: Seq<FetchOutcome>) -> bool {
    &&& outcomes.len() > 0
    &&& forall|i: int| 0 <= i < outcomes.len() ==> outcomes[i] is Unreachable
}

/// The queries planned for a holder list: one per holder, in order — the
/// holder's own address where it is well-formed, a local rejection where
/// it is not.
pub open spec fn spec_balance_queries(holders: Seq<Holder>) -> Seq<BalanceQuery> {
    Seq::new(
        holders.len(),
        |i: int|
            if valid_address(holders[i].address@) {
                BalanceQuery::Query(holders[i].address)
            } else {
                BalanceQuery::Rejected
            },
    )
}

/// Plan the balance queries for a holder list: one query per holder, in
/// order; a holder whose address is malformed is rejected locally and
/// never reaches the network.
pub fn plan_balance_queries(holders: &Vec<Holder>) -> (r: Vec<BalanceQuery>)
    ensures
        r@ == spec_balance_queries(holders@),
        r@.len() == holders@.len(),
{
    let n = holders.len();
    let mut queries: Vec<BalanceQuery> = Vec::new();
    for i in 0..n
        invariant
            n == holders@.len(),
            queries@.len() == i,
            forall|j: int| 0 <= j < i ==> #[trigger] queries@[j]
                == spec_balance_queries(holders@)[j],
    {
        let h = &holders[i];
        if is_valid_address(h.address.as_str()) {
            queries.push(BalanceQuery::Query(h.address.clone()));
        } else {
            queries.push(BalanceQuery::Rejected);
        }
    }
    proof {
        assert(queries@ =~= spec_balance_queries(holders@));
    }
    queries
}

/// Merge a holder list with the outcomes of its balance queries.
///
/// The result has exactly one entry per holder, in the input order: the
/// holder itself unchanged, paired with its balance where the query
/// succeeded and with the explicit "unavailable" marker where it failed.
/// No entry is dropped, duplicated or reordered, and no failure here is
/// fatal. The elapsed time is carried through as reported by the caller
/// that timed the fan-out.
pub fn enrich_outcomes(holders: Vec<Holder>, outcomes: Vec<FetchOutcome>, elapsed_millis: u64) -> (
    r: EnrichmentResult)
    requires
        holders@.len() == outcomes@.len(),
    ensures
        r.balances@ == spec_enrichment(holders@, outcomes@),
        r.balances@.len() == holders@.len(),
        forall|i: int| 0 <= i < holders@.len() ==> #[trigger] r.balances@[i].holder
            == holders@[i],
        r.elapsed_millis == elapsed_millis,
{
    let ghost holders0 = holders@;
    let ghost outcomes0 = outcomes@;
    let mut holders = holders;
    let mut outcomes = outcomes;
    let n = holders.len();
    let mut balances: Vec<HolderBalance> = Vec::new();
    for i in 0..n
        invariant
            n == holders0.len(),
            holders0.len() == outcomes0.len(),
            holders@ =~= holders0.skip(i as int),
            outcomes@ =~= outcomes0.skip(i as int),
            balances@.len() == i,
            forall|j: int| 0 <= j < i ==> #[trigger] balances@[j]
                == spec_enriched_entry(holders0[j], outcomes0[j]),
    {
        let h = holders.remove(0);
        let o = outcomes.remove(0);
        proof {
            assert(h == holders0[i as int]);
            assert(o == outcomes0[i as int]);
            assert(holders@ =~= holders0.skip(i as int + 1));
            assert(outcomes@ =~= outcomes0.skip(i as int + 1));
        }
        let native = match o {
            FetchOutcome::Balance(b) => NativeBalance::Available(b),
            _ => NativeBalance::Unavailable,
        };
        balances.push(HolderBalance { holder: h, native_balance: native });
    }
    proof {
        assert(balances@ =~= spec_enrichment(holders0, outcomes0));
    }
    EnrichmentResult { balances, elapsed_millis }
}

/// Split planned queries into waves for a bounded fan-out, keeping their
/// order.
///
/// One orchestrator serves every concurrency strategy: a wave holds at
/// most `max_concurrent` queries, so a limit of one fetches sequentially
/// and a limit at least the query count is the unbounded fan-out. Run in
/// wave order, the queries are exactly the planned ones in the planned
/// order: every wave but the last is full, none is empty.
pub fn chunk_queries(queries: Vec<BalanceQuery>, max_concurrent: usize) -> (r: Vec<
    Vec<BalanceQuery>,
>)
    requires
        max_concurrent >= 1,
    ensures
        r@.map_values(|c: Vec<BalanceQuery>| c@).flatten() == queries@,
        forall|i: int| 0 <= i < r@.len() ==> 1 <= (#[trigger] r@[i])@.len() <= max_concurrent,
        forall|i: int| 0 <= i < r@.len() - 1 ==> (#[trigger] r@[i])@.len() == max_concurrent,
{
    let ghost all = queries@;
    let mut rest = queries;
    let mut chunks: Vec<Vec<BalanceQuery>> = Vec::new();
    while rest.len() > 0
        invariant
            max_concurrent >= 1,
            chunks@.map_values(|c: Vec<BalanceQuery>| c@).flatten() + rest@ =~= all,
            forall|i: int| 0 <= i < chunks@.len() ==> 1 <= (#[trigger] chunks@[i])@.len()
                <= max_concurrent,
            rest@.len() > 0 ==> forall|i: int| 0 <= i < chunks@.len()
                ==> (#[trigger] chunks@[i])@.len() == max_concurrent,
            forall|i: int| 0 <= i < chunks@.len() - 1 ==> (#[trigger] chunks@[i])@.len()
                == max_concurrent,
        decreases rest@.len(),
    {
        let ghost rest0 = rest@;
        let take_n = if rest.len() < max_concurrent {
            rest.len()
        } else {
            max_concurrent
        };
        let mut chunk: Vec<BalanceQuery> = Vec::new();
        for k in 0..take_n
            invariant
                take_n <= rest0.len(),
                chunk@ =~= rest0.take(k as int),
                rest@ =~= rest0.skip(k as int),
        {
            chunk.push(rest.remove(0));
            proof {
                assert(chunk@ =~= rest0.take(k as int + 1));
                assert(rest@ =~= rest0.skip(k as int + 1));
            }
        }
        let ghost before = chunks@.map_values(|c: Vec<BalanceQuery>| c@);
        chunks.push(chunk);
        proof {
            assert(chunks@.map_values(|c: Vec<BalanceQuery>| c@) =~= before.push(
                rest0.take(take_n as int),
            ));
            before.lemma_flatten_push(rest0.take(take_n as int));
            assert(rest0.take(take_n as int) + rest0.skip(take_n as int) =~= rest0);
        }
    }
    proof {
        assert(chunks@.map_values(|c: Vec<BalanceQuery>| c@).flatten() =~= all);
    }
    chunks
}

/// The error a failed balance query is reported under in the warning
/// diagnostic that names each degraded holder: the reason for the
/// failure, or `None` for a query that returned a balance.
pub fn outcome_error(outcome: &FetchOutcome) -> (r: Option<WhaleError>)
    ensures
        r is Some <==> !(outcome is Balance),
        outcome is BadAddress ==> r == Some(WhaleError::InvalidAddressFormat),
        outcome is Timeout ==> r == Some(WhaleError::RpcTimeout),
        outcome is Unreachable ==> r == Some(WhaleError::RpcUnavailable),
{
    match outcome {
        FetchOutcome::Balance(_) => None,
        FetchOutcome::BadAddress => Some(WhaleError::InvalidAddressFormat),
        FetchOutcome::Timeout => Some(WhaleError::RpcTimeout),
        FetchOutcome::Unreachable => Some(WhaleError::RpcUnavailable),
    }
}

/// Whether a batch of outcomes counts as a total failure of the fan-out:
/// every single query — and there was at least one — found the endpoint
/// unreachable. Such a batch is fatal for the report; anything less
/// degrades only the entries concerned.
pub fn batch_failure(outcomes: &Vec<FetchOutcome>) -> (r: Option<WhaleError>)
    ensures
        r is Some <==> spec_total_failure(outcomes@),
        r matches Some(e) ==> e == WhaleError::RpcUnavailable,
{
    let n = outcomes.len();
    if n == 0 {
        return None;
    }
    for i in 0..n
        invariant
            n == outcomes@.len(),
            forall|j: int| 0 <= j < i ==> outcomes@[j] is Unreachable,
    {
        match outcomes[i] {
            FetchOutcome::Unreachable => {},
            _ => {
                return None;
            },
        }
    }
    Some(WhaleError::RpcUnavailable)
}

/// One failed query among several degrades exactly its own entry.
///
/// If exactly one of more than one outcomes is not a balance, the batch
/// is no total failure: the enriched sequence still has one entry per
/// holder in input order, every other entry carries its balance, and the
/// failed entry carries the "unavailable" marker.
pub proof fn lemma_single_failure_degrades_one_entry(
    holders: Seq<Holder>,
    outcomes: Seq<FetchOutcome>,
    k: int,
)
    requires
        holders.len() == outcomes.len(),
        outcomes.len() > 1,
        0 <= k < outcomes.len(),
        !(outcomes[k] is Balance),
        forall|i: int| 0 <= i < outcomes.len() && i != k ==> outcomes[i] is Balance,
    ensures
        !spec_total_failure(outcomes),
        spec_enrichment(holders, outcomes).len() == holders.len(),
        forall|i: int| 0 <= i < holders.len() ==> #[trigger] spec_enrichment(holders, outcomes)[i]
            .holder == holders[i],
        spec_enrichment(holders, outcomes)[k].native_balance is Unavailable,
        forall|i: int| 0 <= i < holders.len() && i != k
            ==> #[trigger] spec_enrichment(holders, outcomes)[i].native_balance
                == NativeBalance::Available(outcomes[i]->Balance_0),
{
    let witness: int = if k == 0 {
        1
    } else {
        0
    };
    assert(outcomes[witness] is Balance);
}

} // verus!
