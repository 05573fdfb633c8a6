use raw_blocks::antelope::{
    antelope_changes, AnteAction, AnteActionTrace, AnteAuthorization, AnteBlock, AnteHeader,
    AnteTransaction,
};
use raw_blocks::clock::BlockClock;
use raw_blocks::codes::{
    is_transaction_success, transaction_status_to_string, transaction_type_to_string,
};
use raw_blocks::dates::{block_date_to_month, block_date_to_year, block_time_to_date};
use raw_blocks::encode::{bytes_to_hex, hex_decode};
use raw_blocks::evm::{
    evm_changes, EvmBlock, EvmCall, EvmHeader, EvmLog, EvmReceipt, EvmTransaction,
};
use raw_blocks::keys::action_key;
use raw_blocks::numbers::optional_bigint_to_string;
use raw_blocks::rows::{ExtractError, Row};

fn col(row: &Row, name: &str) -> String {
    for (n, v) in &row.columns {
        if n == name {
            return v.clone();
        }
    }
    panic!("row for table {} has no column {}", row.table, name);
}

fn key_component(row: &Row, name: &str) -> String {
    for (n, v) in &row.key {
        if n == name {
            return v.clone();
        }
    }
    panic!("row for table {} has no key component {}", row.table, name);
}

fn sample_clock() -> BlockClock {
    BlockClock {
        number: 42,
        hash: String::from("f1e2d3"),
        seconds: 1684327496,
        timestamp: String::from("2023-05-17T12:44:56Z"),
    }
}

fn sample_receipt() -> EvmReceipt {
    EvmReceipt {
        blob_gas_price: None,
        blob_gas_used: None,
        cumulative_gas_used: 7_000,
        logs_bloom: vec![0xb1],
        state_root: vec![0x51],
        logs: Vec::new(),
    }
}

fn sample_tx() -> EvmTransaction {
    EvmTransaction {
        index: 3,
        hash: vec![0xaa, 0xbb],
        from: vec![0x01],
        to: vec![0x02],
        nonce: 9,
        gas_price: Some(vec![0x01, 0x00]),
        gas_limit: 21_000,
        value: None,
        input: vec![0xde, 0xad],
        v: vec![0x1b],
        r: vec![0x10],
        s: vec![0x20],
        gas_used: 20_000,
        type_code: 2,
        max_fee_per_gas: None,
        max_priority_fee_per_gas: Some(vec![0x05]),
        begin_ordinal: 100,
        end_ordinal: 110,
        status: 1,
        receipt: Some(sample_receipt()),
        calls: Vec::new(),
    }
}

fn sample_header() -> EvmHeader {
    EvmHeader {
        parent_hash: vec![0x77],
        coinbase: vec![0x88],
        transactions_root: vec![0x99],
        receipt_root: vec![0x9a],
    }
}

fn sample_block() -> EvmBlock {
    EvmBlock { detail_level: 2, header: Some(sample_header()), transaction_traces: vec![sample_tx()] }
}

#[test]
fn hex_encode_empty_is_empty() {
    assert_eq!(bytes_to_hex(&Vec::new()), "");
}

#[test]
fn hex_encode_is_lowercase_two_digits_per_byte() {
    assert_eq!(bytes_to_hex(&vec![0x00, 0x1f, 0xab, 0xff]), "001fabff");
}

#[test]
fn hex_round_trip_returns_the_bytes() {
    let mut all: Vec<u8> = Vec::new();
    for b in 0..=255u8 {
        all.push(b);
    }
    for bytes in [Vec::new(), vec![0x00], vec![0xff, 0x00, 0x7f], all] {
        let encoded = bytes_to_hex(&bytes);
        assert_eq!(hex_decode(encoded.as_str()), Some(bytes));
    }
}

#[test]
fn hex_decode_rejects_odd_length_and_bad_digits() {
    assert_eq!(hex_decode("abc"), None);
    assert_eq!(hex_decode("zz"), None);
    assert_eq!(hex_decode("aG"), None);
    assert_eq!(hex_decode(""), Some(Vec::new()));
}

#[test]
fn bigint_absent_keeps_the_default() {
    assert_eq!(optional_bigint_to_string(&None, "0"), "0");
    assert_eq!(optional_bigint_to_string(&None, "fallback"), "fallback");
}

#[test]
fn bigint_256_bit_is_exact() {
    let max = vec![0xffu8; 32];
    assert_eq!(
        optional_bigint_to_string(&Some(max), "0"),
        "115792089237316195423570985008687907853269984665640564039457584007913129639935"
    );
}

#[test]
fn bigint_small_values_and_leading_zeros() {
    assert_eq!(optional_bigint_to_string(&Some(Vec::new()), "7"), "0");
    assert_eq!(optional_bigint_to_string(&Some(vec![0x00, 0x00, 0x01]), "0"), "1");
    assert_eq!(optional_bigint_to_string(&Some(vec![0x01, 0x00]), "0"), "256");
}

#[test]
fn type_labels_cover_the_known_set() {
    assert_eq!(transaction_type_to_string(0), "Legacy");
    assert_eq!(transaction_type_to_string(1), "AccessList");
    assert_eq!(transaction_type_to_string(2), "DynamicFee");
    assert_eq!(transaction_type_to_string(3), "Blob");
    assert_eq!(transaction_type_to_string(100), "ArbitrumDeposit");
    assert_eq!(transaction_type_to_string(101), "ArbitrumUnsigned");
    assert_eq!(transaction_type_to_string(102), "ArbitrumContract");
    assert_eq!(transaction_type_to_string(104), "ArbitrumRetry");
    assert_eq!(transaction_type_to_string(105), "ArbitrumSubmitRetryable");
    assert_eq!(transaction_type_to_string(106), "ArbitrumInternal");
    assert_eq!(transaction_type_to_string(120), "ArbitrumLegacy");
    assert_eq!(transaction_type_to_string(126), "OptimismDeposit");
}

#[test]
fn type_labels_outside_the_known_set_are_unknown() {
    for code in [4, 5, 99, 103, 107, 119, 121, 125, 127, 999, -1, i32::MIN, i32::MAX] {
        assert_eq!(transaction_type_to_string(code), "Unknown");
    }
}

#[test]
fn status_labels_are_a_fixed_total_mapping() {
    assert_eq!(transaction_status_to_string(0), "Unknown");
    assert_eq!(transaction_status_to_string(1), "Succeeded");
    assert_eq!(transaction_status_to_string(2), "Failed");
    assert_eq!(transaction_status_to_string(3), "Reverted");
    for code in [4, 100, -1, i32::MIN, i32::MAX] {
        assert_eq!(transaction_status_to_string(code), "Unknown");
    }
}

#[test]
fn success_is_exactly_status_one() {
    assert!(is_transaction_success(1));
    for code in [0, 2, 3, -1, 42] {
        assert!(!is_transaction_success(code));
    }
}

#[test]
fn date_fields_come_from_the_timestamp_text() {
    let date = block_time_to_date("2023-05-17T12:44:56Z");
    assert_eq!(date, "2023-05-17");
    assert_eq!(block_date_to_month(date.as_str()), "2023-05");
    assert_eq!(block_date_to_year(date.as_str()), "2023");
}

#[test]
fn date_fields_degrade_on_short_input() {
    assert_eq!(block_time_to_date("no-t-here"), "no-t-here");
    assert_eq!(block_time_to_date(""), "");
    assert_eq!(block_date_to_month("2023"), "");
    assert_eq!(block_date_to_year("202"), "");
}

#[test]
fn action_key_joins_id_and_ordinal() {
    assert_eq!(action_key(&String::from("abc123"), 7), "abc123-7");
    assert_eq!(action_key(&String::from(""), 0), "-0");
}

#[test]
fn evm_extraction_is_idempotent() {
    let clock = sample_clock();
    let block = sample_block();
    let first = evm_changes(&clock, &block, false).unwrap();
    let second = evm_changes(&clock, &block, false).unwrap();
    assert_eq!(first, second);
}

#[test]
fn antelope_extraction_is_idempotent() {
    let clock = sample_clock();
    let block = sample_ante_block();
    let first = antelope_changes("", &clock, &block);
    let second = antelope_changes("", &clock, &block);
    assert_eq!(first, second);
}

#[test]
fn no_log_rows_below_full_detail() {
    let clock = sample_clock();
    let mut block = sample_block();
    block.detail_level = 1;
    block.transaction_traces[0].receipt.as_mut().unwrap().logs.push(sample_log());
    let rows = evm_changes(&clock, &block, false).unwrap();
    assert!(rows.iter().all(|r| r.table != "logs"));
}

#[test]
fn log_rows_appear_at_full_detail() {
    let clock = sample_clock();
    let mut block = sample_block();
    block.detail_level = 2;
    block.transaction_traces[0].receipt.as_mut().unwrap().logs.push(sample_log());
    let rows = evm_changes(&clock, &block, false).unwrap();
    let logs: Vec<&Row> = rows.iter().filter(|r| r.table == "logs").collect();
    assert_eq!(logs.len(), 1);
    assert_eq!(col(logs[0], "address"), "0c");
    assert_eq!(col(logs[0], "topics"), "aaaa,bb");
    assert_eq!(col(logs[0], "tx_hash"), "aabb");
    assert_eq!(key_component(logs[0], "index"), "5");
}

fn sample_log() -> EvmLog {
    EvmLog {
        index: 5,
        block_index: 8,
        address: vec![0x0c],
        topics: vec![vec![0xaa, 0xaa], vec![0xbb]],
        data: vec![0x01, 0x02],
        ordinal: 77,
    }
}

#[test]
fn successful_transaction_without_blob_fields() {
    let clock = sample_clock();
    let block = sample_block();
    let rows = evm_changes(&clock, &block, false).unwrap();
    let tx = rows.iter().find(|r| r.table == "transactions").unwrap();
    assert_eq!(col(tx, "success"), "true");
    assert_eq!(col(tx, "status"), "Succeeded");
    assert_eq!(col(tx, "status_code"), "1");
    assert_eq!(col(tx, "blob_gas_price"), "0");
    assert_eq!(col(tx, "blob_gas_used"), "0");
}

#[test]
fn transaction_row_scalar_columns() {
    let clock = sample_clock();
    let block = sample_block();
    let rows = evm_changes(&clock, &block, false).unwrap();
    let tx = rows.iter().find(|r| r.table == "transactions").unwrap();
    assert_eq!(key_component(tx, "block_num"), "42");
    assert_eq!(key_component(tx, "hash"), "aabb");
    assert_eq!(col(tx, "index"), "3");
    assert_eq!(col(tx, "from"), "01");
    assert_eq!(col(tx, "to"), "02");
    assert_eq!(col(tx, "nonce"), "9");
    assert_eq!(col(tx, "gas_price"), "256");
    assert_eq!(col(tx, "value"), "0");
    assert_eq!(col(tx, "input"), "dead");
    assert_eq!(col(tx, "type"), "DynamicFee");
    assert_eq!(col(tx, "type_code"), "2");
    assert_eq!(col(tx, "max_priority_fee_per_gas"), "5");
    assert_eq!(col(tx, "cumulative_gas_used"), "7000");
    assert_eq!(col(tx, "logs_bloom"), "b1");
    assert_eq!(col(tx, "transactions_root"), "99");
    assert_eq!(col(tx, "receipts_root"), "9a");
    assert_eq!(col(tx, "date"), "2023-05-17");
    assert_eq!(col(tx, "month"), "2023-05");
    assert_eq!(col(tx, "year"), "2023");
    assert_eq!(col(tx, "timestamp"), "1684327496");
    assert_eq!(col(tx, "block_num"), "42");
    assert_eq!(col(tx, "block_hash"), "f1e2d3");
}

#[test]
fn trace_rows_carry_parent_metadata() {
    let clock = sample_clock();
    let mut block = sample_block();
    block.transaction_traces[0].calls.push(EvmCall {
        index: 2,
        parent_index: 1,
        depth: 1,
        caller: vec![0x0a],
        address: vec![0x0b],
        value: Some(vec![0x64]),
        gas_limit: 500,
        gas_consumed: 400,
        begin_ordinal: 10,
        end_ordinal: 11,
    });
    let rows = evm_changes(&clock, &block, false).unwrap();
    let traces: Vec<&Row> = rows.iter().filter(|r| r.table == "traces").collect();
    assert_eq!(traces.len(), 1);
    assert_eq!(col(traces[0], "value"), "100");
    assert_eq!(col(traces[0], "caller"), "0a");
    assert_eq!(col(traces[0], "tx_from"), "01");
    assert_eq!(col(traces[0], "tx_to"), "02");
    assert_eq!(col(traces[0], "tx_success"), "true");
    assert_eq!(col(traces[0], "tx_status"), "Succeeded");
    assert_eq!(key_component(traces[0], "tx_hash"), "aabb");
    assert_eq!(key_component(traces[0], "index"), "2");
}

#[test]
fn block_row_and_transaction_count() {
    let clock = sample_clock();
    let block = sample_block();
    let rows = evm_changes(&clock, &block, true).unwrap();
    let b = rows.iter().find(|r| r.table == "blocks").unwrap();
    assert_eq!(key_component(b, "hash"), "f1e2d3");
    assert_eq!(col(b, "parent_hash"), "77");
    assert_eq!(col(b, "miner"), "88");
    assert_eq!(col(b, "transaction_count"), "1");
    assert_eq!(col(b, "number"), "42");
    assert_eq!(col(b, "date"), "2023-05-17");
}

#[test]
fn missing_receipt_is_fatal() {
    let clock = sample_clock();
    let mut block = sample_block();
    block.transaction_traces[0].receipt = None;
    assert_eq!(evm_changes(&clock, &block, false), Err(ExtractError::MissingReceipt));
}

#[test]
fn missing_header_is_fatal_for_transactions() {
    let clock = sample_clock();
    let mut block = sample_block();
    block.header = None;
    assert_eq!(evm_changes(&clock, &block, false), Err(ExtractError::MissingHeader));
}

#[test]
fn headerless_block_without_transactions_still_yields_its_row() {
    let clock = sample_clock();
    let block = EvmBlock { detail_level: 2, header: None, transaction_traces: Vec::new() };
    let rows = evm_changes(&clock, &block, false).unwrap();
    assert_eq!(rows.len(), 1);
    assert_eq!(rows[0].table, "blocks");
    assert_eq!(col(&rows[0], "parent_hash"), "");
}

fn sample_ante_action(ordinal: u64, auth_count: usize) -> AnteActionTrace {
    let mut authorization = Vec::new();
    for k in 0..auth_count {
        authorization.push(AnteAuthorization {
            actor: format!("actor{}", k),
            permission: String::from("active"),
        });
    }
    AnteActionTrace {
        action: Some(AnteAction {
            account: String::from("eosio.token"),
            name: String::from("transfer"),
            json_data: String::from("{\"to\":\"bob\"}"),
            raw_data: vec![0x0e, 0x0f],
            authorization,
        }),
        action_ordinal: ordinal,
    }
}

fn sample_ante_block() -> AnteBlock {
    AnteBlock {
        header: Some(AnteHeader {
            previous: String::from("prevhash"),
            producer: String::from("eosproducer"),
        }),
        transaction_traces: vec![AnteTransaction {
            id: String::from("tx1"),
            index: 0,
            elapsed: -7,
            net_usage: 16,
            cpu_usage_micro_seconds: 250,
            action_traces: vec![sample_ante_action(1, 3)],
        }],
    }
}

#[test]
fn antelope_no_match_yields_no_rows() {
    let clock = sample_clock();
    let block = sample_ante_block();
    let rows = antelope_changes("nobody", &clock, &block);
    assert!(rows.is_empty());
}

#[test]
fn antelope_empty_filter_matches_everything() {
    let clock = sample_clock();
    let block = sample_ante_block();
    let rows = antelope_changes("", &clock, &block);
    let tables: Vec<&str> = rows.iter().map(|r| r.table.as_str()).collect();
    assert_eq!(
        tables,
        vec!["Transaction", "Action", "Authorization", "Authorization", "Authorization", "Block"]
    );
}

#[test]
fn antelope_account_filter_matches() {
    let clock = sample_clock();
    let block = sample_ante_block();
    let by_account = antelope_changes("eosio.token", &clock, &block);
    assert!(!by_account.is_empty());
    let by_name = antelope_changes("transfer", &clock, &block);
    assert!(!by_name.is_empty());
}

#[test]
fn action_with_three_authorizations() {
    let clock = sample_clock();
    let block = sample_ante_block();
    let rows = antelope_changes("", &clock, &block);
    let actions: Vec<&Row> = rows.iter().filter(|r| r.table == "Action").collect();
    let auths: Vec<&Row> = rows.iter().filter(|r| r.table == "Authorization").collect();
    assert_eq!(actions.len(), 1);
    assert_eq!(auths.len(), 3);
    let action_id = key_component(actions[0], "id");
    assert_eq!(action_id, "tx1-1");
    for (k, auth) in auths.iter().enumerate() {
        assert_eq!(col(auth, "index"), k.to_string());
        assert_eq!(col(auth, "action"), action_id);
        assert_eq!(key_component(auth, "id"), format!("tx1-1-{}", k));
        assert_eq!(col(auth, "actor"), format!("actor{}", k));
        assert_eq!(col(auth, "permission"), "active");
    }
}

#[test]
fn antelope_transaction_and_block_rows() {
    let clock = sample_clock();
    let block = sample_ante_block();
    let rows = antelope_changes("", &clock, &block);
    let tx = rows.iter().find(|r| r.table == "Transaction").unwrap();
    assert_eq!(key_component(tx, "id"), "tx1");
    assert_eq!(col(tx, "elapsed"), "-7");
    assert_eq!(col(tx, "netUsage"), "16");
    assert_eq!(col(tx, "cpuUsage"), "250");
    assert_eq!(col(tx, "blockNumber"), "42");
    let action = rows.iter().find(|r| r.table == "Action").unwrap();
    assert_eq!(col(action, "rawData"), "0e0f");
    assert_eq!(col(action, "account"), "eosio.token");
    let b = rows.iter().find(|r| r.table == "Block").unwrap();
    assert_eq!(key_component(b, "id"), "f1e2d3");
    assert_eq!(col(b, "previous"), "prevhash");
    assert_eq!(col(b, "producer"), "eosproducer");
    assert_eq!(col(b, "month"), "2023-05");
    assert_eq!(col(b, "time"), "1684327496");
}
