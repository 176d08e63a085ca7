//! Per-chain sync control: start-block resolution, the per-contract
//! attempt sequence, and endpoint fallback.
//!
//! One attempt syncs every monitored contract of a chain, in a fixed
//! order, and advances the chain cursor only after all of them have
//! completed; each contract resumes from its own dataset, so a crash
//! between contracts never loses or repeats blocks.  A failed attempt
//! is retried from the beginning against the next endpoint of the
//! chain's ordered pool.

use vstd::prelude::*;

use vstd::string::StringExecFns;

use crate::chains::ChainConfig;
use crate::cursor::Cursor;
use crate::engine::FetchEngine;

verus! {

/// How many contracts are monitored per chain.
pub const CONTRACT_COUNT: usize = 2;

/// The monitored contracts of a chain, in their fixed sync order.
#[derive(Debug, Clone, Copy, PartialEq, Eq, Structural)]
pub enum ContractRole {
    /// The Identity Registry.
    Identity,
    /// The Reputation Registry.
    Reputation,
}

/// The contract synced at each position of the fixed order.
pub open spec fn role_at(i: int) -> ContractRole {
    if i == 0 {
        ContractRole::Identity
    } else {
        ContractRole::Reputation
    }
}

impl ContractRole {
    /// The dataset file stem for this contract.
    pub fn name(&self) -> (r: String)
        ensures
            r@ == match *self {
                ContractRole::Identity => "identity"@,
                ContractRole::Reputation => "reputation"@,
            },
    {
        match self {
            ContractRole::Identity => String::from_str("identity"),
            ContractRole::Reputation => String::from_str("reputation"),
        }
    }
}

/// The chain-level start block of an attempt: one past the cursor
/// when one exists, else the chain's configured start.
pub open spec fn spec_start_block(cursor: Option<Cursor>, chain: ChainConfig) -> int {
    match cursor {
        Some(c) => c.last_block + 1,
        None => chain.sync_start_block_spec() as int,
    }
}

/// Compute the chain-level start block for an attempt.
pub fn start_block(cursor: Option<Cursor>, chain: &ChainConfig) -> (r: u64)
    requires
        cursor is Some ==> cursor->Some_0.last_block < u64::MAX,
    ensures
        r == spec_start_block(cursor, *chain),
{
    match cursor {
        Some(c) => c.last_block + 1,
        None => chain.sync_start_block(),
    }
}

/// The effective fetch start of one contract: one past the highest
/// block its dataset already holds, when that is ahead of the
/// chain-level start.
pub open spec fn spec_contract_start(chain_start: u64, dataset_max: Option<u64>) -> int {
    match dataset_max {
        Some(m) => {
            if m + 1 > chain_start {
                m + 1
            } else {
                chain_start as int
            }
        },
        None => chain_start as int,
    }
}

/// Compute the effective fetch start for one contract from the
/// chain-level start and the highest block its dataset holds.
pub fn contract_start(chain_start: u64, dataset_max: Option<u64>) -> (r: u64)
    requires
        dataset_max is Some ==> dataset_max->Some_0 < u64::MAX,
    ensures
        r == spec_contract_start(chain_start, dataset_max),
{
    match dataset_max {
        Some(m) => {
            if m + 1 > chain_start {
                m + 1
            } else {
                chain_start
            }
        },
        None => chain_start,
    }
}

/// What one contract's sync within an attempt must do.
#[derive(Debug, Clone, Copy, PartialEq, Eq, Structural)]
pub enum ContractPlan {
    /// The dataset is already at or past the tip: nothing to fetch.
    Skip,
    /// Fetch the closed block range `[from, to]`.
    Fetch { from: u64, to: u64 },
}

/// One sync attempt for one chain against one endpoint: the tip it
/// saw, the chain-level start, and how many contracts have completed.
pub struct ChainAttempt {
    /// Chain-level start block of this attempt.
    pub start: u64,
    /// Chain tip this attempt syncs up to.
    pub tip: u64,
    /// Contracts completed so far, in the fixed order.
    pub done_contracts: usize,
}

impl ChainAttempt {
    /// At most every contract is completed.
    pub open spec fn wf(self) -> bool {
        self.done_contracts <= CONTRACT_COUNT
    }

    /// The chain was already synced past the tip: the attempt does
    /// nothing and writes nothing.
    pub open spec fn already_current(self) -> bool {
        self.start > self.tip
    }

    /// Every monitored contract has completed.
    pub open spec fn all_contracts_done(self) -> bool {
        self.done_contracts == CONTRACT_COUNT
    }

    /// A fresh attempt: no contract completed yet.
    pub fn new(start: u64, tip: u64) -> (r: Self)
        ensures
            r.wf(),
            r.start == start,
            r.tip == tip,
            r.done_contracts == 0,
    {
        ChainAttempt { start, tip, done_contracts: 0 }
    }

    /// Whether the chain is already current, so the attempt ends with
    /// no fetch and no cursor write.
    pub fn is_current(&self) -> (r: bool)
        ensures
            r == self.already_current(),
    {
        self.start > self.tip
    }

    /// The next contract to sync, or `None` once all are done.
    pub fn next_contract(&self) -> (r: Option<ContractRole>)
        requires
            self.wf(),
        ensures
            match r {
                Some(role) => !self.all_contracts_done() && role == role_at(
                    self.done_contracts as int,
                ),
                None => self.all_contracts_done(),
            },
    {
        if self.done_contracts == 0 {
            Some(ContractRole::Identity)
        } else if self.done_contracts == 1 {
            Some(ContractRole::Reputation)
        } else {
            None
        }
    }

    /// Plan one contract's sync from the highest block its dataset
    /// already holds: skip when its effective start is past the tip,
    /// else fetch from that start through the tip.
    pub fn plan_contract(&self, dataset_max: Option<u64>) -> (r: ContractPlan)
        requires
            !self.already_current(),
            dataset_max is Some ==> dataset_max->Some_0 < u64::MAX,
        ensures
            spec_contract_start(self.start, dataset_max) > self.tip ==> r == ContractPlan::Skip,
            spec_contract_start(self.start, dataset_max) <= self.tip ==> r == (ContractPlan::Fetch {
                from: spec_contract_start(self.start, dataset_max) as u64,
                to: self.tip,
            }),
    {
        let from = contract_start(self.start, dataset_max);
        if from > self.tip {
            ContractPlan::Skip
        } else {
            ContractPlan::Fetch { from, to: self.tip }
        }
    }

    /// Record that the next contract completed (fetched through the
    /// tip, or skipped as already current).
    pub fn contract_done(&mut self)
        requires
            old(self).wf(),
            !old(self).all_contracts_done(),
        ensures
            final(self).wf(),
            final(self).start == old(self).start,
            final(self).tip == old(self).tip,
            final(self).done_contracts == old(self).done_contracts + 1,
    {
        self.done_contracts = self.done_contracts + 1;
    }

    /// The cursor block to persist: the tip, and only once every
    /// contract of the attempt has completed — a partial attempt
    /// never advances the chain cursor.
    pub fn cursor_block(&self) -> (r: Option<u64>)
        requires
            self.wf(),
        ensures
            r is Some <==> self.all_contracts_done(),
            r is Some ==> r->Some_0 == self.tip,
    {
        if self.done_contracts == CONTRACT_COUNT {
            Some(self.tip)
        } else {
            None
        }
    }
}

/// Walks a chain's ordered endpoint list: each failed attempt moves to
/// the next endpoint; the list is exhausted when none is left.
pub struct EndpointFallback {
    /// Index of the endpoint to try next.
    pub next_index: usize,
    /// How many endpoints the list holds.
    pub total: usize,
}

impl EndpointFallback {
    /// The position never passes the end of the list, which is
    /// non-empty.
    pub open spec fn wf(self) -> bool {
        self.next_index <= self.total && 1 <= self.total
    }

    /// Start at the first endpoint of a non-empty list.
    pub fn new(total: usize) -> (r: Self)
        requires
            total >= 1,
        ensures
            r.wf(),
            r.next_index == 0,
            r.total == total,
    {
        EndpointFallback { next_index: 0, total }
    }

    /// The endpoint to try now, in list order; `None` once every
    /// endpoint has failed.
    pub fn current(&self) -> (r: Option<usize>)
        ensures
            self.next_index < self.total ==> r == Some(self.next_index),
            self.next_index >= self.total ==> r is None,
    {
        if self.next_index < self.total {
            Some(self.next_index)
        } else {
            None
        }
    }

    /// Record that the current endpoint failed: the next attempt uses
    /// the endpoint one further down the list.
    pub fn on_failure(&mut self)
        requires
            old(self).wf(),
            old(self).next_index < old(self).total,
        ensures
            final(self).wf(),
            final(self).total == old(self).total,
            final(self).next_index == old(self).next_index + 1,
    {
        self.next_index = self.next_index + 1;
    }
}

/// The index of the first successful endpoint, given each endpoint's
/// outcome; `None` when every endpoint fails.
pub open spec fn first_success(outcomes: Seq<bool>) -> Option<int>
    decreases outcomes.len(),
{
    if outcomes.len() == 0 {
        None
    } else if outcomes[0] {
        Some(0int)
    } else {
        match first_success(outcomes.drop_first()) {
            Some(i) => Some(i + 1),
            None => None,
        }
    }
}

/// Law: the sync of a chain succeeds on exactly the first endpoint
/// whose attempt succeeds, after trying every earlier endpoint in list
/// order.
pub proof fn lemma_fallback_first_success(outcomes: Seq<bool>, k: int)
    requires
        0 <= k < outcomes.len(),
        outcomes[k],
        forall|j: int| 0 <= j < k ==> !outcomes[j],
    ensures
        first_success(outcomes) == Some(k),
    decreases k,
{
    if k > 0 {
        let rest = outcomes.drop_first();
        assert(forall|j: int| 0 <= j < k - 1 ==> !rest[j]);
        lemma_fallback_first_success(rest, k - 1);
    }
}

/// Law: a chain fails only when every endpoint in its list has failed.
pub proof fn lemma_fallback_exhausts(outcomes: Seq<bool>)
    requires
        forall|j: int| 0 <= j < outcomes.len() ==> !outcomes[j],
    ensures
        first_success(outcomes) is None,
    decreases outcomes.len(),
{
    if outcomes.len() > 0 {
        let rest = outcomes.drop_first();
        assert(forall|j: int| 0 <= j < rest.len() ==> !rest[j]);
        lemma_fallback_exhausts(rest);
    }
}

/// Law: a second sync right after a successful one — the cursor at the
/// tip, no new chain activity — finds the chain already current: its
/// start block lies past the tip, so the attempt built from it plans
/// no fetch and writes neither datasets nor cursor.
pub proof fn lemma_sync_idempotent(c: Cursor, chain: ChainConfig, tip: u64)
    requires
        c.last_block == tip,
        tip < u64::MAX,
    ensures
        spec_start_block(Some(c), chain) > tip,
        (ChainAttempt {
            start: (c.last_block + 1) as u64,
            tip,
            done_contracts: 0,
        }).already_current(),
{
}

/// Law: when the cursor is at or past the tip, the attempt is already
/// current and no log fetch occurs.
pub proof fn lemma_current_no_fetch(c: Cursor, chain: ChainConfig, tip: u64)
    requires
        c.last_block >= tip,
    ensures
        spec_start_block(Some(c), chain) > tip,
{
}

/// Law: a sync resuming from cursor `c` against tip `t` fetches
/// exactly the blocks of `(c, t]`: every such block lies in one
/// fetched range, and every fetched range lies within `(c, t]`.
pub proof fn lemma_resume_fetches_exactly(
    c: Cursor,
    chain: ChainConfig,
    tip: u64,
    e: FetchEngine,
    b: u64,
)
    requires
        e.wf(),
        e.is_done(),
        e.from == spec_start_block(Some(c), chain),
        e.to == tip,
        c.last_block < tip,
    ensures
        c.last_block < b <= tip ==> exists|i: int|
            0 <= i < e.fetched@.len() && (#[trigger] e.fetched@[i]).0 <= b <= e.fetched@[i].1,
        forall|i: int|
            0 <= i < e.fetched@.len() ==> c.last_block < (#[trigger] e.fetched@[i]).0
                && e.fetched@[i].1 <= tip,
{
    if c.last_block < b <= tip {
        crate::engine::lemma_fetch_block_covered(e, b);
    }
    crate::engine::lemma_fetch_no_overlap(e);
}

/// Law: each contract resumes independently — one whose dataset holds
/// blocks through `k` restarts at `max(start, k + 1)`, one with an
/// empty dataset restarts at the chain-level start; neither depends on
/// the other's dataset.
pub proof fn lemma_per_contract_resume(start: u64, k: u64)
    ensures
        spec_contract_start(start, Some(k)) == if k + 1 > start {
            k + 1
        } else {
            start as int
        },
        spec_contract_start(start, None) == start,
{
}

/// Law: per-contract resume independence.  In one attempt with
/// chain-level start `start` and tip `tip`, a contract whose dataset
/// already holds blocks through `k` (at or past `start - 1`) fetches
/// exactly `(k, tip]`, while a contract with an empty dataset fetches
/// exactly `[start, tip]` in the same attempt: neither range depends
/// on the other contract's dataset.  That the chain cursor advances
/// only after both contracts have completed is the contract of
/// [`ChainAttempt::cursor_block`].
pub proof fn lemma_per_contract_independence(
    a: ChainAttempt,
    filled: FetchEngine,
    fresh: FetchEngine,
    k: u64,
    b: u64,
)
    requires
        !a.already_current(),
        k < u64::MAX,
        k + 1 >= a.start,
        filled.wf(),
        filled.is_done(),
        filled.from == spec_contract_start(a.start, Some(k)),
        filled.to == a.tip,
        fresh.wf(),
        fresh.is_done(),
        fresh.from == spec_contract_start(a.start, None),
        fresh.to == a.tip,
    ensures
        filled.from == k + 1,
        fresh.from == a.start,
        k < b <= a.tip ==> exists|i: int|
            0 <= i < filled.fetched@.len() && (#[trigger] filled.fetched@[i]).0 <= b
                <= filled.fetched@[i].1,
        forall|i: int|
            0 <= i < filled.fetched@.len() ==> k < (#[trigger] filled.fetched@[i]).0
                && filled.fetched@[i].1 <= a.tip,
        a.start <= b <= a.tip ==> exists|i: int|
            0 <= i < fresh.fetched@.len() && (#[trigger] fresh.fetched@[i]).0 <= b
                <= fresh.fetched@[i].1,
        forall|i: int|
            0 <= i < fresh.fetched@.len() ==> a.start <= (#[trigger] fresh.fetched@[i]).0
                && fresh.fetched@[i].1 <= a.tip,
{
    if k < b <= a.tip {
        crate::engine::lemma_fetch_block_covered(filled, b);
    }
    crate::engine::lemma_fetch_no_overlap(filled);
    if a.start <= b <= a.tip {
        crate::engine::lemma_fetch_block_covered(fresh, b);
    }
    crate::engine::lemma_fetch_no_overlap(fresh);
}

/// Law: a cursor document that does not parse leaves the next sync
/// starting from the chain's configured start block, exactly as if no
/// cursor existed.
pub proof fn lemma_corrupt_cursor_fresh(bytes: Seq<u8>, chain: ChainConfig)
    requires
        crate::cursor::parse_cursor_spec(bytes) is None,
    ensures
        spec_start_block(crate::cursor::parse_cursor_spec(bytes), chain)
            == chain.sync_start_block_spec(),
{
}

} // verus!
