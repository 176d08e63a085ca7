//! Runtime configuration: per-chain RPC endpoint pools.
//!
//! The sync engine tries a chain's endpoints in order, falling back to
//! the next on failure.  When no pool is configured for a chain, the
//! built-in default endpoint is used alone.  Loading the configuration
//! file itself is I/O and lives outside the library.

use vstd::prelude::*;

use std::collections::HashMap;

verus! {

broadcast use vstd::std_specs::hash::group_hash_axioms;

/// Top-level configuration: per-chain RPC pools, keyed by chain ID.
pub struct Config {
    /// Per-chain RPC overrides, keyed by chain ID.
    pub chains: HashMap<u64, ChainRpcs>,
}

/// RPC endpoint list for a single chain.
pub struct ChainRpcs {
    /// Ordered list of RPC URLs (best first).
    pub rpcs: Vec<String>,
}

impl Default for Config {
    /// An empty configuration: no chain has a configured pool.
    fn default() -> (r: Self)
        ensures
            r.chains@ == Map::<u64, ChainRpcs>::empty(),
    {
        Config { chains: HashMap::new() }
    }
}

impl Config {
    /// Return the RPC URL list for a chain: its configured pool when
    /// one exists and is non-empty, else the built-in default alone.
    /// Never empty.
    pub fn rpcs_for(&self, chain_id: u64, default_rpc: &str) -> (r: Vec<String>)
        ensures
            r@.len() >= 1,
            (self.chains@.contains_key(chain_id) && self.chains@[chain_id].rpcs@.len() > 0)
                ==> r@ == self.chains@[chain_id].rpcs@,
            !(self.chains@.contains_key(chain_id) && self.chains@[chain_id].rpcs@.len() > 0)
                ==> r@.len() == 1 && r@[0]@ == default_rpc@,
    {
        match self.chains.get(&chain_id) {
            Some(c) => {
                if c.rpcs.len() > 0 {
                    let copy = c.rpcs.clone();
                    proof {
                        assert forall|i: int| 0 <= i < copy@.len() implies copy@[i]
                            == c.rpcs@[i] by {
                            assert(vstd::pervasive::cloned::<String>(c.rpcs[i], copy[i]));
                        }
                        assert(copy@ =~= c.rpcs@);
                    }
                    copy
                } else {
                    let mut v: Vec<String> = Vec::new();
                    v.push(default_rpc.to_owned());
                    v
                }
            },
            None => {
                let mut v: Vec<String> = Vec::new();
                v.push(default_rpc.to_owned());
                v
            },
        }
    }
}

} // verus!
