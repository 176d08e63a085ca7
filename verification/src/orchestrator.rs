//! Multi-chain orchestration decisions.
//!
//! One sync run drives many per-chain controllers concurrently under a
//! concurrency cap; chains fail independently, and the run as a whole
//! fails only when every chain failed.  The scheduling itself happens
//! outside the library; the decisions — which chains to target, how
//! many to run at once, what the aggregate outcome is — are here.

use vstd::prelude::*;

use crate::chains::{all_chains, by_chain_id, chain_table_order, config_wf, ChainConfig};
use crate::networks::Network;

verus! {

/// Tunable parameters for a sync run.
#[derive(Debug, Clone, Copy)]
pub struct SyncOptions {
    /// Delay between consecutive log requests, in milliseconds.
    pub batch_delay_ms: u64,
    /// Per-request timeout, in milliseconds.
    pub request_timeout_ms: u64,
    /// Consecutive errors before a fetch is abandoned.
    pub max_errors: u32,
    /// Chains synced in parallel.
    pub concurrency: usize,
}

impl Default for SyncOptions {
    /// The default tuning: a tenth of a second between requests, a
    /// thirty-second request timeout, ten consecutive errors, sixteen
    /// chains in parallel.
    fn default() -> (r: Self)
        ensures
            r.batch_delay_ms == 100,
            r.request_timeout_ms == 30_000,
            r.max_errors == 10,
            r.concurrency == 16,
    {
        SyncOptions { batch_delay_ms: 100, request_timeout_ms: 30_000, max_errors: 10, concurrency: 16 }
    }
}

/// A configuration error, fatal before any network activity.
#[derive(Debug, Clone, Copy, PartialEq, Eq, Structural)]
pub enum ConfigError {
    /// The requested chain ID is not a known deployment.
    UnknownChain,
    /// A single-endpoint override was given without a chain filter.
    RpcOverrideWithoutChain,
}

/// Why a whole run failed.
#[derive(Debug, Clone, Copy, PartialEq, Eq, Structural)]
pub enum RunError {
    /// Every targeted chain failed to sync; carries the count.
    AllChainsFailed {
        /// How many chains failed.
        failed: u32,
    },
}

/// How many chains run at once: the configured limit, capped at the
/// number of chains, and at least one.
pub fn effective_concurrency(configured: usize, n_chains: usize) -> (r: usize)
    ensures
        r == if (if configured <= n_chains {
            configured as int
        } else {
            n_chains as int
        }) >= 1 {
            (if configured <= n_chains {
                configured as int
            } else {
                n_chains as int
            })
        } else {
            1int
        },
{
    let capped = if configured <= n_chains {
        configured
    } else {
        n_chains
    };
    if capped >= 1 {
        capped
    } else {
        1
    }
}

/// The aggregate outcome of a run: it fails exactly when at least one
/// chain was targeted and every one of them failed.
pub fn overall_result(success: u32, failed: u32) -> (r: Result<(), RunError>)
    ensures
        (failed > 0 && success == 0) <==> r is Err,
        r is Err ==> r == Err::<(), RunError>(RunError::AllChainsFailed { failed }),
{
    if failed > 0 && success == 0 {
        Err(RunError::AllChainsFailed { failed })
    } else {
        Ok(())
    }
}

/// A single-endpoint override is only valid together with a chain
/// filter.
pub fn rpc_override_allowed(chain_filter: Option<u64>, has_override: bool) -> (r: bool)
    ensures
        r == !(has_override && chain_filter is None),
{
    !(has_override && chain_filter.is_none())
}

/// Whether a chain belongs to a run that includes or excludes
/// testnets.
pub open spec fn target_included(n: Network, include_testnets: bool) -> bool {
    include_testnets || n.is_mainnet()
}

/// The chains a run targets: the one requested by the filter, or the
/// whole table with testnets excluded unless asked for.  An unknown
/// chain ID is a configuration error.
pub fn select_targets(chain_filter: Option<u64>, include_testnets: bool) -> (r: Result<
    Vec<ChainConfig>,
    ConfigError,
>)
    ensures
        match chain_filter {
            Some(id) => match r {
                Ok(v) => v@.len() == 1 && config_wf(v@[0]) && v@[0].network.chain_id_spec() == id,
                Err(e) => e == ConfigError::UnknownChain && forall|n: Network|
                    #[trigger] n.chain_id_spec() != id,
            },
            None => match r {
                Ok(v) => {
                    &&& v@.map_values(|c: ChainConfig| c.network) == chain_table_order().filter(
                        |n: Network| target_included(n, include_testnets),
                    )
                    &&& forall|i: int| 0 <= i < v@.len() ==> config_wf(#[trigger] v@[i])
                },
                Err(_) => false,
            },
        },
{
    match chain_filter {
        Some(id) => {
            match by_chain_id(id) {
                Some(c) => {
                    let mut v: Vec<ChainConfig> = Vec::new();
                    v.push(c);
                    Ok(v)
                },
                None => Err(ConfigError::UnknownChain),
            }
        },
        None => {
            let all = all_chains();
            let ghost order = chain_table_order();
            let ghost pred = |n: Network| target_included(n, include_testnets);
            let mut out: Vec<ChainConfig> = Vec::new();
            let mut i: usize = 0;
            proof {
                assert(order.subrange(0, 0).filter(pred) =~= Seq::<Network>::empty());
                assert(out@.map_values(|c: ChainConfig| c.network) =~= order.subrange(0, 0).filter(
                    pred,
                ));
            }
            while i < all.len()
                invariant
                    i <= all@.len(),
                    all@.len() == order.len(),
                    forall|k: int|
                        0 <= k < all@.len() ==> (#[trigger] all@[k]).network == order[k]
                            && config_wf(all@[k]),
                    pred == (|n: Network| target_included(n, include_testnets)),
                    out@.map_values(|c: ChainConfig| c.network) == order.subrange(0, i as int)
                        .filter(pred),
                    forall|k: int| 0 <= k < out@.len() ==> config_wf(#[trigger] out@[k]),
                decreases all@.len() - i,
            {
                let c = &all[i];
                let keep = include_testnets || !c.is_testnet;
                proof {
                    assert(c.is_testnet == !c.network.is_mainnet());
                    assert(keep == pred(order[i as int]));
                }
                if keep {
                    out.push(c.clone());
                }
                i = i + 1;
                proof {
                    let prev = order.subrange(0, i - 1);
                    let cur = order.subrange(0, i as int);
                    assert(cur.drop_last() =~= prev);
                    reveal(Seq::filter);
                    assert(out@.map_values(|c: ChainConfig| c.network) =~= cur.filter(pred));
                }
            }
            proof {
                assert(order.subrange(0, order.len() as int) =~= order);
            }
            Ok(out)
        },
    }
}

} // verus!
