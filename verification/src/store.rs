//! Columnar row model for fetched event logs.
//!
//! A dataset is a sequence of row batches; each batch is a sequence of
//! [`EventRecord`] rows.  Raw provider log entries are converted to
//! rows here, with defensive filtering of structurally incomplete
//! entries; the maximum block number present drives per-contract
//! resumption.  Reading and writing the columnar file itself is I/O
//! and lives outside the library.

use vstd::prelude::*;

verus! {

/// Rows pending in memory before they are merged into the dataset.
/// Reaching this many forces a flush, bounding memory use on very
/// log-dense ranges.
pub const FLUSH_THRESHOLD: usize = 5_000;

/// A raw provider log entry, as handed in from the RPC edge: every
/// field the provider may omit is optional here.  Hashes, addresses,
/// topics and payload are lowercase hexadecimal strings.
pub struct RawLog {
    /// Block that emitted the log, if the provider reported one.
    pub block_number: Option<u64>,
    /// Hash of the emitting transaction, if reported.
    pub tx_hash: Option<String>,
    /// Index of the transaction within its block, if reported.
    pub tx_index: Option<u64>,
    /// Index of the log within its block, if reported.
    pub log_index: Option<u64>,
    /// Address of the emitting contract.
    pub address: String,
    /// Indexed topics, in order; may be empty.
    pub topics: Vec<String>,
    /// Opaque data payload.
    pub data: String,
    /// Whether the log was removed by a re-organisation.
    pub removed: bool,
}

/// One stored row.  The field order mirrors the column order of the
/// on-disk schema.
pub struct EventRecord {
    /// Block that emitted the log.
    pub block_number: u64,
    /// Hash of the emitting transaction.
    pub tx_hash: String,
    /// Index of the transaction within its block.
    pub tx_index: u32,
    /// Index of the log within its block.
    pub log_index: u32,
    /// Address of the emitting contract.
    pub address: String,
    /// First indexed topic; rows without one are never stored.
    pub topic0: String,
    /// Second indexed topic, when present.
    pub topic1: Option<String>,
    /// Third indexed topic, when present.
    pub topic2: Option<String>,
    /// Fourth indexed topic, when present.
    pub topic3: Option<String>,
    /// Opaque data payload.
    pub data: String,
    /// Whether the log was removed by a re-organisation.
    pub removed: bool,
}

/// A raw entry is structurally complete: block number, transaction
/// hash, transaction index, log index and at least one topic are all
/// present.  Anything else is dropped on conversion.
pub open spec fn log_valid(l: RawLog) -> bool {
    &&& l.block_number is Some
    &&& l.tx_hash is Some
    &&& l.tx_index is Some
    &&& l.log_index is Some
    &&& l.topics@.len() >= 1
}

/// The row a structurally complete raw entry converts to.  The two
/// index fields are narrowed to 32 bits.
pub open spec fn record_of(l: RawLog) -> EventRecord {
    EventRecord {
        block_number: l.block_number->Some_0,
        tx_hash: l.tx_hash->Some_0,
        tx_index: (l.tx_index->Some_0 % 0x1_0000_0000) as u32,
        log_index: (l.log_index->Some_0 % 0x1_0000_0000) as u32,
        address: l.address,
        topic0: l.topics@[0],
        topic1: if l.topics@.len() > 1 { Some(l.topics@[1]) } else { None },
        topic2: if l.topics@.len() > 2 { Some(l.topics@[2]) } else { None },
        topic3: if l.topics@.len() > 3 { Some(l.topics@[3]) } else { None },
        data: l.data,
        removed: l.removed,
    }
}

/// The batch that a sequence of raw entries converts to: the
/// structurally complete entries, in order, as rows.
pub open spec fn batch_of(logs: Seq<RawLog>) -> Seq<EventRecord> {
    logs.filter(|l: RawLog| log_valid(l)).map_values(|l: RawLog| record_of(l))
}

/// Convert raw provider log entries into a row batch, silently
/// dropping structurally incomplete entries.  Returns the batch and
/// the number of valid rows, so a caller can tell "nothing new" from
/// "fetched some, all invalid".
pub fn logs_to_batch(logs: Vec<RawLog>) -> (r: (Vec<EventRecord>, usize))
    ensures
        r.0@ == batch_of(logs@),
        r.1 == r.0@.len(),
{
    let mut rows: Vec<EventRecord> = Vec::new();
    let mut rest = logs;
    let ghost all = rest@;
    let mut taken: usize = 0;
    proof {
        assert(all.subrange(0, 0).filter(|l: RawLog| log_valid(l)) =~= Seq::<RawLog>::empty());
        assert(rows@ =~= batch_of(all.subrange(0, 0)));
    }
    while taken < rest.len()
        invariant
            taken <= rest@.len(),
            rest@ == all,
            rows@ == batch_of(all.subrange(0, taken as int)),
        decreases all.len() - taken,
    {
        let l = &rest[taken];
        let valid = l.block_number.is_some() && l.tx_hash.is_some() && l.tx_index.is_some()
            && l.log_index.is_some() && l.topics.len() >= 1;
        if valid {
            let tx_hash = match &l.tx_hash {
                Some(h) => h.clone(),
                None => String::new(),
            };
            let row = EventRecord {
                block_number: l.block_number.unwrap(),
                tx_hash,
                tx_index: (l.tx_index.unwrap() % 0x1_0000_0000) as u32,
                log_index: (l.log_index.unwrap() % 0x1_0000_0000) as u32,
                address: l.address.clone(),
                topic0: l.topics[0].clone(),
                topic1: if l.topics.len() > 1 { Some(l.topics[1].clone()) } else { None },
                topic2: if l.topics.len() > 2 { Some(l.topics[2].clone()) } else { None },
                topic3: if l.topics.len() > 3 { Some(l.topics[3].clone()) } else { None },
                data: l.data.clone(),
                removed: l.removed,
            };
            proof {
                assert(row == record_of(all[taken as int]));
            }
            rows.push(row);
        }
        taken = taken + 1;
        proof {
            let pre = all.subrange(0, taken - 1);
            let cur = all.subrange(0, taken as int);
            assert(cur.drop_last() =~= pre);
            assert(cur.last() == all[taken - 1]);
            reveal(Seq::filter);
            assert(rows@ =~= batch_of(cur));
        }
    }
    proof {
        assert(all.subrange(0, all.len() as int) =~= all);
    }
    let n = rows.len();
    (rows, n)
}

/// The maximum block number across all rows of all batches.
///
/// `None` exactly when every batch is empty; otherwise the returned
/// block number is present in some row and no row exceeds it.
pub fn max_block_number(batches: &Vec<Vec<EventRecord>>) -> (r: Option<u64>)
    ensures
        match r {
            None => forall|i: int| 0 <= i < batches@.len() ==> batches@[i]@.len() == 0,
            Some(m) => {
                &&& exists|i: int, j: int|
                    0 <= i < batches@.len() && 0 <= j < batches@[i]@.len()
                        && batches@[i]@[j].block_number == m
                &&& forall|i: int, j: int|
                    0 <= i < batches@.len() && 0 <= j < batches@[i]@.len()
                        ==> batches@[i]@[j].block_number <= m
            },
        },
{
    let mut best: Option<u64> = None;
    let mut i: usize = 0;
    while i < batches.len()
        invariant
            i <= batches@.len(),
            match best {
                None => forall|i2: int| 0 <= i2 < i ==> batches@[i2]@.len() == 0,
                Some(m) => {
                    &&& exists|i2: int, j: int|
                        0 <= i2 < i && 0 <= j < batches@[i2]@.len()
                            && batches@[i2]@[j].block_number == m
                    &&& forall|i2: int, j: int|
                        0 <= i2 < i && 0 <= j < batches@[i2]@.len()
                            ==> batches@[i2]@[j].block_number <= m
                },
            },
        decreases batches@.len() - i,
    {
        let batch = &batches[i];
        let mut j: usize = 0;
        while j < batch.len()
            invariant
                j <= batch@.len(),
                batch@ == batches@[i as int]@,
                i < batches@.len(),
                match best {
                    None => {
                        &&& forall|i2: int| 0 <= i2 < i ==> batches@[i2]@.len() == 0
                        &&& j == 0
                    },
                    Some(m) => {
                        &&& exists|i2: int, j2: int|
                            0 <= i2 <= i && 0 <= j2 < batches@[i2]@.len()
                                && batches@[i2]@[j2].block_number == m
                        &&& forall|i2: int, j2: int|
                            0 <= i2 < i && 0 <= j2 < batches@[i2]@.len()
                                ==> batches@[i2]@[j2].block_number <= m
                        &&& forall|j2: int| 0 <= j2 < j ==> batch@[j2].block_number <= m
                    },
                },
            decreases batch@.len() - j,
        {
            let b = batch[j].block_number;
            match best {
                None => {
                    best = Some(b);
                },
                Some(m) => {
                    if b > m {
                        best = Some(b);
                    }
                },
            }
            j = j + 1;
        }
        i = i + 1;
    }
    best
}

/// Merge pending raw entries into the dataset: convert them, append
/// the resulting batch when it is non-empty, and clear the pending
/// buffer.  Returns the number of rows merged; the dataset grew (and
/// so needs persisting) exactly when the count is positive.
pub fn flush(pending: &mut Vec<RawLog>, batches: &mut Vec<Vec<EventRecord>>) -> (r: usize)
    ensures
        final(pending)@.len() == 0,
        r == batch_of(old(pending)@).len(),
        r > 0 ==> {
            &&& final(batches)@.len() == old(batches)@.len() + 1
            &&& forall|i: int|
                0 <= i < old(batches)@.len() ==> final(batches)@[i] == old(batches)@[i]
            &&& final(batches)@[old(batches)@.len() as int]@ == batch_of(old(pending)@)
        },
        r == 0 ==> final(batches)@ == old(batches)@,
{
    let mut drained: Vec<RawLog> = Vec::new();
    core::mem::swap(&mut drained, pending);
    let (batch, n) = logs_to_batch(drained);
    if n > 0 {
        batches.push(batch);
    }
    n
}

} // verus!
