//! Tests of the cursor codec, the columnar row model, the network
//! table and the payload types.

use erc8004_events::cursor::{parse_cursor, render_cursor, u64_to_dec, Cursor};
use erc8004_events::networks::Network;
use erc8004_events::store::{logs_to_batch, max_block_number, flush, EventRecord, RawLog};
use erc8004_events::types::{default_true, RegistrationFile};

fn complete_log(block: u64, topics: usize) -> RawLog {
    RawLog {
        block_number: Some(block),
        tx_hash: Some(format!("0xhash{block}")),
        tx_index: Some(3),
        log_index: Some(4),
        address: String::from("0x8004a169"),
        topics: (0..topics).map(|i| format!("0xtopic{i}")).collect(),
        data: String::from("0xdata"),
        removed: false,
    }
}

#[test]
fn decimal_rendering_of_block_numbers() {
    assert_eq!(u64_to_dec(0), b"0".to_vec());
    assert_eq!(u64_to_dec(7), b"7".to_vec());
    assert_eq!(u64_to_dec(1_234_567_890), b"1234567890".to_vec());
    assert_eq!(u64_to_dec(u64::MAX), b"18446744073709551615".to_vec());
}

#[test]
fn cursor_renders_canonically_and_round_trips() {
    let c = Cursor { last_block: 200, synced_at: 1234 };
    let bytes = render_cursor(&c);
    assert_eq!(bytes, b"{\"last_block\":200,\"synced_at\":1234}".to_vec());
    assert_eq!(parse_cursor(&bytes), Some(c));
    let extremes = Cursor { last_block: u64::MAX, synced_at: 0 };
    assert_eq!(parse_cursor(&render_cursor(&extremes)), Some(extremes));
}

#[test]
fn cursor_parser_tolerates_whitespace() {
    let text = b" {\n  \"last_block\" : 41663783 ,\n  \"synced_at\" : 1700000000\n}\n".to_vec();
    assert_eq!(
        parse_cursor(&text),
        Some(Cursor { last_block: 41_663_783, synced_at: 1_700_000_000 })
    );
}

#[test]
fn cursor_parser_rejects_corrupt_documents() {
    let bad: &[&[u8]] = &[
        b"",
        b"garbage",
        b"{}",
        b"{\"last_block\":}",
        b"{\"last_block\":12}",
        b"{\"synced_at\":1,\"last_block\":2}",
        b"{\"last_block\":1,\"synced_at\":2}trailing",
        b"{\"last_block\":-5,\"synced_at\":2}",
        // One past the largest 64-bit value.
        b"{\"last_block\":18446744073709551616,\"synced_at\":2}",
        b"{\"last_block\":1,\"synced_at\":2",
    ];
    for doc in bad {
        assert_eq!(parse_cursor(&doc.to_vec()), None, "accepted: {:?}", doc);
    }
}

#[test]
fn corrupt_cursor_degrades_to_fresh_sync() {
    // A cursor file with invalid content behaves as if absent: the
    // next sync starts from the chain's configured start block.
    let chain = erc8004_events::chains::by_chain_id(8453).unwrap();
    let corrupt = b"not json at all".to_vec();
    let loaded = parse_cursor(&corrupt);
    assert_eq!(loaded, None);
    let start = erc8004_events::controller::start_block(loaded, &chain);
    assert_eq!(start, chain.sync_start_block());
}

#[test]
fn conversion_drops_structurally_incomplete_entries() {
    let mut missing_hash = complete_log(5, 1);
    missing_hash.tx_hash = None;
    let mut no_topics = complete_log(6, 0);
    no_topics.topics = Vec::new();
    let mut missing_block = complete_log(7, 2);
    missing_block.block_number = None;
    let mut missing_tx_index = complete_log(8, 1);
    missing_tx_index.tx_index = None;
    let mut missing_log_index = complete_log(9, 1);
    missing_log_index.log_index = None;
    let logs = vec![
        complete_log(1, 4),
        missing_hash,
        no_topics,
        missing_block,
        missing_tx_index,
        missing_log_index,
        complete_log(2, 2),
    ];
    let (batch, n) = logs_to_batch(logs);
    assert_eq!(n, 2);
    assert_eq!(batch.len(), 2);
    assert_eq!(batch[0].block_number, 1);
    assert_eq!(batch[0].topic0, "0xtopic0");
    assert_eq!(batch[0].topic1.as_deref(), Some("0xtopic1"));
    assert_eq!(batch[0].topic2.as_deref(), Some("0xtopic2"));
    assert_eq!(batch[0].topic3.as_deref(), Some("0xtopic3"));
    assert_eq!(batch[1].block_number, 2);
    assert_eq!(batch[1].topic1.as_deref(), Some("0xtopic1"));
    assert_eq!(batch[1].topic2, None);
    assert_eq!(batch[1].topic3, None);
}

#[test]
fn conversion_narrows_wide_indices() {
    let mut l = complete_log(10, 1);
    l.tx_index = Some(0x1_0000_0005);
    l.log_index = Some(0xFFFF_FFFF);
    let (batch, n) = logs_to_batch(vec![l]);
    assert_eq!(n, 1);
    assert_eq!(batch[0].tx_index, 5);
    assert_eq!(batch[0].log_index, 0xFFFF_FFFF);
}

#[test]
fn max_block_number_scans_all_batches() {
    let empty: Vec<Vec<EventRecord>> = Vec::new();
    assert_eq!(max_block_number(&empty), None);
    let (b1, _) = logs_to_batch(vec![complete_log(5, 1), complete_log(900, 1)]);
    let (b2, _) = logs_to_batch(vec![complete_log(30, 1)]);
    let batches = vec![Vec::new(), b1, b2];
    assert_eq!(max_block_number(&batches), Some(900));
    let only_empty: Vec<Vec<EventRecord>> = vec![Vec::new(), Vec::new()];
    assert_eq!(max_block_number(&only_empty), None);
}

#[test]
fn flush_merges_pending_and_reports_growth() {
    let mut pending = vec![complete_log(1, 1), complete_log(2, 1)];
    let mut batches: Vec<Vec<EventRecord>> = Vec::new();
    let n = flush(&mut pending, &mut batches);
    assert_eq!(n, 2);
    assert!(pending.is_empty());
    assert_eq!(batches.len(), 1);

    // All-invalid pending rows clear without touching the dataset.
    let mut invalid = complete_log(3, 1);
    invalid.tx_hash = None;
    let mut pending2 = vec![invalid];
    let n2 = flush(&mut pending2, &mut batches);
    assert_eq!(n2, 0);
    assert!(pending2.is_empty());
    assert_eq!(batches.len(), 1);
}

#[test]
fn network_chain_ids_round_trip() {
    for n in Network::all() {
        assert_eq!(Network::from_chain_id(n.chain_id()), Some(n));
    }
    assert_eq!(Network::from_chain_id(2), None);
    assert_eq!(Network::BaseMainnet.chain_id(), 8453);
    assert_eq!(Network::EthereumSepolia.chain_id(), 11_155_111);
}

#[test]
fn network_addresses_split_by_deployment_kind() {
    let main = Network::BaseMainnet.addresses();
    assert_eq!(main.identity, "0x8004A169FB4a3325136EB29fA0ceB6D2e539a432");
    assert_eq!(main.reputation, "0x8004BAa17C55a88189AE136b182e5fdA19dE9b63");
    let test = Network::BaseSepolia.addresses();
    assert_eq!(test.identity, "0x8004A818BFB912233c491871b3d84c89A494BD9e");
    assert_eq!(test.reputation, "0x8004B663056A597Dffe9eCcC1965A193B7388713");
    assert_eq!(Network::EthereumMainnet.addresses().identity, main.identity);
}

#[test]
fn agent_registry_prefix_is_namespaced() {
    assert_eq!(
        Network::EthereumMainnet.agent_registry_prefix(),
        "eip155:1:0x8004A169FB4a3325136EB29fA0ceB6D2e539a432"
    );
    assert_eq!(
        Network::BaseSepolia.agent_registry_prefix(),
        "eip155:84532:0x8004A818BFB912233c491871b3d84c89A494BD9e"
    );
}

#[test]
fn registration_file_new_fills_defaults() {
    let f = RegistrationFile::new(String::from("agent"), String::from("does things"));
    assert_eq!(f.type_field, "https://eips.ethereum.org/EIPS/eip-8004#registration-v1");
    assert_eq!(f.name, "agent");
    assert_eq!(f.description, "does things");
    assert!(f.image.is_none());
    assert!(f.services.is_empty());
    assert!(!f.x402_support);
    assert!(f.active);
    assert!(f.registrations.is_empty());
    assert!(f.supported_trust.is_empty());
    assert!(default_true());
}
