use whales::enrich::{
    batch_failure, chunk_queries, enrich_outcomes, outcome_error, plan_balance_queries,
    BalanceQuery, FetchOutcome,
};
use whales::model::{
    Holder, NativeBalance, TokenMetadata, TokenPrice, WhaleError,
};
use whales::pipeline::{
    assemble, enrichment_requests, join_sources, plan_source_fetch, Config, UpstreamOutcome,
};

fn holder(address: &str, balance: &str, share: &str) -> Holder {
    Holder {
        address: address.to_string(),
        balance: balance.to_string(),
        share: share.to_string(),
    }
}

fn metadata() -> TokenMetadata {
    TokenMetadata {
        address: "0xa0b86991c6218b36c1d19d4a2e9eb0ce3606eb48".to_string(),
        name: "USD Coin".to_string(),
        symbol: "USDC".to_string(),
        decimals: "6".to_string(),
        total_supply: "24394364024691367".to_string(),
        holders_count: "1685872".to_string(),
        price: TokenPrice {
            rate: "0.999".to_string(),
            currency: "USD".to_string(),
            diff_24h: Some("0.01".to_string()),
            diff_7d: None,
            diff_30d: None,
            market_cap: Some("24380000000".to_string()),
            volume_24h: None,
        },
    }
}

fn three_holders() -> Vec<Holder> {
    vec![
        holder("0x5aaeb6053f3e94c9b9a09f33669435e7ef1beaed", "1200000.5", "0.12"),
        holder("0xfb6916095ca1df60bb79ce92ce3ea74c37c5d359", "800000.25", "0.08"),
        holder("0xdbf03b407c01e7cd3cbea99509d93f8dddc8c6fb", "500000", "0.05"),
    ]
}

#[test]
fn missing_credential_is_rejected_before_anything_else() {
    let config = Config { api_key: None };
    let r = plan_source_fetch(&config, "0xa0b86991c6218b36c1d19d4a2e9eb0ce3606eb48".to_string(), 5);
    assert_eq!(r.unwrap_err(), WhaleError::MissingCredential);

    let config = Config { api_key: Some(String::new()) };
    let r = plan_source_fetch(&config, "0xa0b86991c6218b36c1d19d4a2e9eb0ce3606eb48".to_string(), 5);
    assert_eq!(r.unwrap_err(), WhaleError::MissingCredential);
}

#[test]
fn malformed_token_address_is_rejected_locally() {
    let config = Config { api_key: Some("test-api-key".to_string()) };
    let r = plan_source_fetch(&config, "not-an-address".to_string(), 5);
    assert_eq!(r.unwrap_err(), WhaleError::InvalidAddressFormat);
}

#[test]
fn planned_source_fetch_carries_inputs_through() {
    let config = Config { api_key: Some("test-api-key".to_string()) };
    let token = "0xa0b86991c6218b36c1d19d4a2e9eb0ce3606eb48";
    let req = plan_source_fetch(&config, token.to_string(), 3).unwrap();
    assert_eq!(req.token, token);
    assert_eq!(req.limit, 3);
    assert_eq!(req.api_key, "test-api-key");
}

#[test]
fn join_passes_both_documents_through() {
    let joined = join_sources(
        UpstreamOutcome::Data(three_holders()),
        UpstreamOutcome::Data(metadata()),
    );
    let (holders, meta) = joined.unwrap();
    assert_eq!(holders, three_holders());
    assert_eq!(meta, metadata());
}

#[test]
fn join_fails_on_unreachable_upstream() {
    let joined = join_sources(
        UpstreamOutcome::TransportError,
        UpstreamOutcome::Data(metadata()),
    );
    assert_eq!(joined.unwrap_err(), WhaleError::UpstreamUnavailable);

    let joined = join_sources(
        UpstreamOutcome::Data(three_holders()),
        UpstreamOutcome::<TokenMetadata>::TransportError,
    );
    assert_eq!(joined.unwrap_err(), WhaleError::UpstreamUnavailable);
}

#[test]
fn join_fails_on_malformed_body() {
    let joined = join_sources(
        UpstreamOutcome::MalformedBody,
        UpstreamOutcome::Data(metadata()),
    );
    assert_eq!(joined.unwrap_err(), WhaleError::UpstreamMalformed);

    let joined = join_sources(
        UpstreamOutcome::Data(three_holders()),
        UpstreamOutcome::<TokenMetadata>::MalformedBody,
    );
    assert_eq!(joined.unwrap_err(), WhaleError::UpstreamMalformed);
}

#[test]
fn unreachable_upstream_issues_no_balance_query() {
    let joined = join_sources(
        UpstreamOutcome::TransportError,
        UpstreamOutcome::Data(metadata()),
    );
    assert_eq!(joined.as_ref().unwrap_err(), &WhaleError::UpstreamUnavailable);
    let queries = enrichment_requests(&joined);
    assert_eq!(queries.len(), 0);
}

#[test]
fn queries_follow_holder_order_and_reject_bad_addresses() {
    let mut holders = three_holders();
    holders.push(holder("bogus", "1", "0.0001"));
    let queries = plan_balance_queries(&holders);
    assert_eq!(queries.len(), 4);
    assert_eq!(
        queries[0],
        BalanceQuery::Query("0x5aaeb6053f3e94c9b9a09f33669435e7ef1beaed".to_string())
    );
    assert_eq!(
        queries[1],
        BalanceQuery::Query("0xfb6916095ca1df60bb79ce92ce3ea74c37c5d359".to_string())
    );
    assert_eq!(
        queries[2],
        BalanceQuery::Query("0xdbf03b407c01e7cd3cbea99509d93f8dddc8c6fb".to_string())
    );
    assert_eq!(queries[3], BalanceQuery::Rejected);
}

#[test]
fn bounded_fanout_waves_keep_query_order() {
    let queries: Vec<BalanceQuery> = (0..5)
        .map(|i| BalanceQuery::Query(format!("0x{:040x}", i)))
        .collect();

    let waves = chunk_queries(queries.clone(), 2);
    assert_eq!(waves.len(), 3);
    assert_eq!(waves[0].len(), 2);
    assert_eq!(waves[1].len(), 2);
    assert_eq!(waves[2].len(), 1);
    let rejoined: Vec<BalanceQuery> = waves.into_iter().flatten().collect();
    assert_eq!(rejoined, queries);

    let sequential = chunk_queries(queries.clone(), 1);
    assert_eq!(sequential.len(), 5);
    assert!(sequential.iter().all(|w| w.len() == 1));

    let unbounded = chunk_queries(queries.clone(), 100);
    assert_eq!(unbounded.len(), 1);
    assert_eq!(unbounded[0], queries);

    let none = chunk_queries(Vec::new(), 3);
    assert_eq!(none.len(), 0);
}

#[test]
fn enrichment_keeps_length_and_order() {
    let holders = three_holders();
    let outcomes = vec![
        FetchOutcome::Balance("10".to_string()),
        FetchOutcome::Balance("20".to_string()),
        FetchOutcome::Balance("30".to_string()),
    ];
    let r = enrich_outcomes(holders.clone(), outcomes, 12);
    assert_eq!(r.balances.len(), 3);
    assert_eq!(r.elapsed_millis, 12);
    for (i, entry) in r.balances.iter().enumerate() {
        assert_eq!(entry.holder, holders[i]);
    }
    assert_eq!(r.balances[0].native_balance, NativeBalance::Available("10".to_string()));
    assert_eq!(r.balances[2].native_balance, NativeBalance::Available("30".to_string()));
}

#[test]
fn enrichment_of_empty_holder_list_is_empty() {
    let r = enrich_outcomes(Vec::new(), Vec::new(), 0);
    assert_eq!(r.balances.len(), 0);
    assert_eq!(r.elapsed_millis, 0);
}

#[test]
fn single_failed_fetch_degrades_only_its_entry() {
    let holders = three_holders();
    let outcomes = vec![
        FetchOutcome::Balance("10".to_string()),
        FetchOutcome::Timeout,
        FetchOutcome::Balance("30".to_string()),
    ];
    assert_eq!(batch_failure(&outcomes), None);
    let r = enrich_outcomes(holders.clone(), outcomes, 9);
    assert_eq!(r.balances.len(), 3);
    assert_eq!(r.balances[0].native_balance, NativeBalance::Available("10".to_string()));
    assert_eq!(r.balances[1].native_balance, NativeBalance::Unavailable);
    assert_eq!(r.balances[2].native_balance, NativeBalance::Available("30".to_string()));
    for (i, entry) in r.balances.iter().enumerate() {
        assert_eq!(entry.holder, holders[i]);
    }
}

#[test]
fn totally_unreachable_batch_is_fatal() {
    let outcomes = vec![FetchOutcome::Unreachable, FetchOutcome::Unreachable];
    assert_eq!(batch_failure(&outcomes), Some(WhaleError::RpcUnavailable));
    assert_eq!(batch_failure(&Vec::new()), None);
    let mixed = vec![FetchOutcome::Unreachable, FetchOutcome::Timeout];
    assert_eq!(batch_failure(&mixed), None);
}

#[test]
fn failed_outcomes_are_diagnosed_with_their_reason() {
    assert_eq!(outcome_error(&FetchOutcome::Balance("1".to_string())), None);
    assert_eq!(outcome_error(&FetchOutcome::Timeout), Some(WhaleError::RpcTimeout));
    assert_eq!(outcome_error(&FetchOutcome::Unreachable), Some(WhaleError::RpcUnavailable));
    assert_eq!(
        outcome_error(&FetchOutcome::BadAddress),
        Some(WhaleError::InvalidAddressFormat)
    );
}

#[test]
fn assembled_report_merges_metadata_and_balances() {
    let holders = three_holders();
    let outcomes = vec![
        FetchOutcome::Balance("10".to_string()),
        FetchOutcome::Balance("20".to_string()),
        FetchOutcome::Balance("30".to_string()),
    ];
    let enrichment = enrich_outcomes(holders, outcomes, 4);
    let report = assemble(
        "0xa0b86991c6218b36c1d19d4a2e9eb0ce3606eb48".to_string(),
        metadata(),
        enrichment,
        3,
    )
    .unwrap();
    assert_eq!(report.token, "0xa0b86991c6218b36c1d19d4a2e9eb0ce3606eb48");
    assert_eq!(report.name, "USD Coin");
    assert_eq!(report.symbol, "USDC");
    assert_eq!(report.price, "0.999");
    assert_eq!(report.holders_count, "1685872");
    assert_eq!(report.data.len(), 3);
}

#[test]
fn assembly_length_mismatch_is_an_internal_defect() {
    let holders = three_holders();
    let outcomes = vec![
        FetchOutcome::Balance("10".to_string()),
        FetchOutcome::Balance("20".to_string()),
        FetchOutcome::Balance("30".to_string()),
    ];
    let enrichment = enrich_outcomes(holders, outcomes, 4);
    let r = assemble(
        "0xa0b86991c6218b36c1d19d4a2e9eb0ce3606eb48".to_string(),
        metadata(),
        enrichment,
        4,
    );
    assert_eq!(r.unwrap_err(), WhaleError::InternalConsistency);
}

#[test]
fn report_for_three_stubbed_holders() {
    let token = "0xA0b86991c6218B36c1D19D4a2e9Eb0CE3606EB48";
    let config = Config { api_key: Some("test-api-key".to_string()) };
    let req = plan_source_fetch(&config, token.to_string(), 3).unwrap();
    assert_eq!(req.limit, 3);

    let joined = join_sources(
        UpstreamOutcome::Data(three_holders()),
        UpstreamOutcome::Data(metadata()),
    );
    let queries = enrichment_requests(&joined);
    assert_eq!(queries.len(), 3);
    let (holders, meta) = joined.unwrap();

    let stub_balances = ["1000000000000000000", "2000000000000000000", "0"];
    let outcomes: Vec<FetchOutcome> =
        stub_balances.iter().map(|b| FetchOutcome::Balance(b.to_string())).collect();
    assert_eq!(batch_failure(&outcomes), None);

    let expected = holders.clone();
    let enrichment = enrich_outcomes(holders, outcomes, 5);
    assert!(enrichment.elapsed_millis >= 0);
    let n = enrichment.balances.len();
    let report = assemble(req.token, meta, enrichment, n).unwrap();

    assert_eq!(report.data.len(), 3);
    for (i, entry) in report.data.iter().enumerate() {
        assert_eq!(entry.holder, expected[i]);
        assert_eq!(
            entry.native_balance,
            NativeBalance::Available(stub_balances[i].to_string())
        );
    }
}
