//! Tests of the per-chain controller, endpoint fallback, target
//! selection and run-level outcomes.

use std::collections::HashMap;

use erc8004_events::chains::{all_chains, by_chain_id, ChainConfig};
use erc8004_events::config::{ChainRpcs, Config};
use erc8004_events::controller::{
    contract_start, start_block, ChainAttempt, ContractPlan, ContractRole, EndpointFallback,
    CONTRACT_COUNT,
};
use erc8004_events::cursor::Cursor;
use erc8004_events::engine::FetchEngine;
use erc8004_events::networks::Network;
use erc8004_events::orchestrator::{
    effective_concurrency, overall_result, rpc_override_allowed, select_targets, ConfigError,
    RunError, SyncOptions,
};
use erc8004_events::store::{max_block_number, EventRecord};

fn test_chain(deployment_block: u64, first_event_block: Option<u64>) -> ChainConfig {
    ChainConfig {
        network: Network::BaseMainnet,
        deployment_block,
        first_event_block,
        default_rpc: String::from("https://rpc.example"),
        is_testnet: false,
    }
}

#[test]
fn start_block_prefers_cursor_then_hint_then_deployment() {
    let chain = test_chain(100, None);
    assert_eq!(start_block(None, &chain), 100);
    let hinted = test_chain(100, Some(42));
    assert_eq!(start_block(None, &hinted), 42);
    let cur = Cursor { last_block: 500, synced_at: 1 };
    assert_eq!(start_block(Some(cur), &hinted), 501);
}

#[test]
fn contract_start_takes_dataset_into_account() {
    assert_eq!(contract_start(100, None), 100);
    assert_eq!(contract_start(100, Some(50)), 100);
    assert_eq!(contract_start(100, Some(150)), 151);
    assert_eq!(contract_start(100, Some(99)), 100);
    assert_eq!(contract_start(100, Some(100)), 101);
}

#[test]
fn attempt_walks_contracts_in_fixed_order_and_gates_cursor() {
    let mut a = ChainAttempt::new(100, 200);
    assert!(!a.is_current());
    assert_eq!(a.next_contract(), Some(ContractRole::Identity));
    assert_eq!(a.cursor_block(), None);
    a.contract_done();
    assert_eq!(a.next_contract(), Some(ContractRole::Reputation));
    assert_eq!(a.cursor_block(), None);
    a.contract_done();
    assert_eq!(a.next_contract(), None);
    assert_eq!(a.cursor_block(), Some(200));
    assert_eq!(CONTRACT_COUNT, 2);
}

#[test]
fn attempt_plans_each_contract_from_its_own_dataset() {
    // Contract A already holds blocks through 150; contract B holds
    // nothing.  The same attempt plans (150, 200] for A and
    // [100, 200] for B, and the cursor moves only after both.
    let mut a = ChainAttempt::new(100, 200);
    let plan_a = a.plan_contract(Some(150));
    assert_eq!(plan_a, ContractPlan::Fetch { from: 151, to: 200 });
    a.contract_done();
    assert_eq!(a.cursor_block(), None);
    let plan_b = a.plan_contract(None);
    assert_eq!(plan_b, ContractPlan::Fetch { from: 100, to: 200 });
    a.contract_done();
    assert_eq!(a.cursor_block(), Some(200));
}

#[test]
fn contract_roles_have_fixed_file_stems() {
    assert_eq!(ContractRole::Identity.name(), "identity");
    assert_eq!(ContractRole::Reputation.name(), "reputation");
}

#[test]
fn attempt_skips_contract_already_past_tip() {
    let a = ChainAttempt::new(100, 200);
    assert_eq!(a.plan_contract(Some(200)), ContractPlan::Skip);
    assert_eq!(a.plan_contract(Some(500)), ContractPlan::Skip);
}

#[test]
fn first_sync_writes_then_second_sync_is_idempotent() {
    // Dataset empty, chain tip 200, deployment block 100.
    let chain = test_chain(100, None);
    let tip = 200;
    let mut batches: Vec<Vec<EventRecord>> = Vec::new();

    // First sync: fetch [100, 200] for both contracts, then the
    // cursor lands at 200.
    let start = start_block(None, &chain);
    assert_eq!(start, 100);
    let mut attempt = ChainAttempt::new(start, tip);
    assert!(!attempt.is_current());
    let mut fetched_ranges: Vec<(u64, u64)> = Vec::new();
    while attempt.next_contract().is_some() {
        let from = contract_start(start, max_block_number(&batches));
        assert!(from <= tip);
        let mut e = FetchEngine::new(from, tip, 10);
        while let Some((s, t)) = e.next_request() {
            fetched_ranges.push((s, t));
            e.on_success(vec![raw(s)]);
        }
        let n = e.flush_into(&mut batches);
        assert!(n > 0);
        attempt.contract_done();
    }
    assert_eq!(fetched_ranges.first().unwrap(), &(100, 200));
    let cursor = Cursor { last_block: attempt.cursor_block().unwrap(), synced_at: 7 };
    assert_eq!(cursor.last_block, 200);
    let batches_before = batches.len();

    // Second sync with the tip unchanged: already current before any
    // fetch, nothing written.
    let start2 = start_block(Some(cursor), &chain);
    assert_eq!(start2, 201);
    let attempt2 = ChainAttempt::new(start2, tip);
    assert!(attempt2.is_current());
    assert_eq!(batches.len(), batches_before);
}

fn raw(block: u64) -> erc8004_events::store::RawLog {
    erc8004_events::store::RawLog {
        block_number: Some(block),
        tx_hash: Some(String::from("0xabc")),
        tx_index: Some(1),
        log_index: Some(2),
        address: String::from("0x8004"),
        topics: vec![String::from("0xt0")],
        data: String::from("0x"),
        removed: false,
    }
}

#[test]
fn fallback_tries_endpoints_in_order_until_one_succeeds() {
    // Endpoints [e1, e2, e3]: e1 and e2 fail, e3 succeeds.
    let outcomes = [false, false, true];
    let mut fb = EndpointFallback::new(outcomes.len());
    let mut attempts: Vec<usize> = Vec::new();
    let mut winner: Option<usize> = None;
    while let Some(i) = fb.current() {
        attempts.push(i);
        if outcomes[i] {
            winner = Some(i);
            break;
        }
        fb.on_failure();
    }
    assert_eq!(attempts, vec![0, 1, 2]);
    assert_eq!(winner, Some(2));
}

#[test]
fn fallback_fails_only_after_every_endpoint() {
    let mut fb = EndpointFallback::new(2);
    let mut attempts: Vec<usize> = Vec::new();
    while let Some(i) = fb.current() {
        attempts.push(i);
        fb.on_failure();
    }
    assert_eq!(attempts, vec![0, 1]);
    assert!(fb.current().is_none());
}

#[test]
fn failed_chain_leaves_healthy_chain_untouched() {
    // Chain A: every endpoint fails.  Chain B: syncs clean.  The run
    // reports one failure and still succeeds.
    let mut fb_a = EndpointFallback::new(2);
    while fb_a.current().is_some() {
        fb_a.on_failure();
    }
    let a_failed = fb_a.current().is_none();
    assert!(a_failed);

    let chain_b = test_chain(100, None);
    let start = start_block(None, &chain_b);
    let mut attempt_b = ChainAttempt::new(start, 120);
    while attempt_b.next_contract().is_some() {
        let mut e = FetchEngine::new(start, 120, 10);
        while e.next_request().is_some() {
            e.on_success(vec![]);
        }
        attempt_b.contract_done();
    }
    assert_eq!(attempt_b.cursor_block(), Some(120));

    assert!(overall_result(1, 1).is_ok());
    assert_eq!(overall_result(0, 2), Err(RunError::AllChainsFailed { failed: 2 }));
}

#[test]
fn overall_result_fails_only_when_all_fail() {
    assert!(overall_result(0, 0).is_ok());
    assert!(overall_result(3, 0).is_ok());
    assert!(overall_result(2, 5).is_ok());
    assert!(overall_result(0, 1).is_err());
}

#[test]
fn effective_concurrency_is_capped_and_positive() {
    assert_eq!(effective_concurrency(16, 3), 3);
    assert_eq!(effective_concurrency(2, 10), 2);
    assert_eq!(effective_concurrency(0, 5), 1);
    assert_eq!(effective_concurrency(5, 0), 1);
    assert_eq!(effective_concurrency(4, 4), 4);
}

#[test]
fn rpc_override_requires_chain_filter() {
    assert!(!rpc_override_allowed(None, true));
    assert!(rpc_override_allowed(Some(1), true));
    assert!(rpc_override_allowed(None, false));
}

#[test]
fn select_targets_filters_testnets_unless_asked() {
    let mainnets = select_targets(None, false).unwrap();
    assert_eq!(mainnets.len(), 10);
    assert!(mainnets.iter().all(|c| !c.is_testnet));
    let everything = select_targets(None, true).unwrap();
    assert_eq!(everything.len(), 18);
}

#[test]
fn select_targets_with_filter_and_unknown_chain() {
    let one = select_targets(Some(8453), true).unwrap();
    assert_eq!(one.len(), 1);
    assert_eq!(one[0].network, Network::BaseMainnet);
    assert!(matches!(select_targets(Some(424242), false), Err(ConfigError::UnknownChain)));
}

#[test]
fn rpcs_for_prefers_configured_pool() {
    let mut chains: HashMap<u64, ChainRpcs> = HashMap::new();
    chains.insert(
        8453,
        ChainRpcs { rpcs: vec![String::from("https://a.example"), String::from("https://b.example")] },
    );
    chains.insert(10143, ChainRpcs { rpcs: vec![] });
    let config = Config { chains };
    let pool = config.rpcs_for(8453, "https://fallback.example");
    assert_eq!(pool, vec![String::from("https://a.example"), String::from("https://b.example")]);
    // An empty pool and an absent entry both fall back to the default.
    let empty = config.rpcs_for(10143, "https://fallback.example");
    assert_eq!(empty, vec![String::from("https://fallback.example")]);
    let absent = config.rpcs_for(1, "https://fallback.example");
    assert_eq!(absent, vec![String::from("https://fallback.example")]);
}

#[test]
fn sync_options_defaults_match_the_documented_tuning() {
    let opts = SyncOptions::default();
    assert_eq!(opts.batch_delay_ms, 100);
    assert_eq!(opts.request_timeout_ms, 30_000);
    assert_eq!(opts.max_errors, 10);
    assert_eq!(opts.concurrency, 16);
}

#[test]
fn chain_table_lookup_and_start_blocks() {
    let base = by_chain_id(8453).unwrap();
    assert_eq!(base.network, Network::BaseMainnet);
    assert_eq!(base.deployment_block, 41_663_783);
    assert_eq!(base.first_event_block, None);
    assert_eq!(base.sync_start_block(), 41_663_783);
    assert_eq!(base.chain_id(), 8453);
    assert!(!base.is_testnet);
    assert!(by_chain_id(2).is_none());

    let all = all_chains();
    assert_eq!(all.len(), 18);
    assert_eq!(all.iter().filter(|c| c.is_testnet).count(), 8);
}
