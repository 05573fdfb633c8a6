//! Extraction of EVM rows: one transaction row per transaction trace,
//! one trace row per call frame, and — only at full block detail — one log
//! row per receipt log. A missing receipt or a missing block header is the
//! one fatal condition; every optional scalar degrades to a default.

use vstd::prelude::*;
use crate::clock::{insert_timestamp, timestamp_columns, BlockClock};
use crate::codes::{is_transaction_success, spec_is_success, status_label, transaction_status_to_string,
    transaction_type_to_string, type_label};
use crate::encode::{bytes_to_hex, hex_of};
use crate::keys::{child_key_model, child_keys, transaction_key_model, transaction_keys};
use crate::numbers::{bool_label, bool_to_string, dec_of, dec_of_int, i64_to_string, opt_bigint_dec,
    optional_bigint_to_string, u64_to_string};
use crate::rows::{models, push_row, ExtractError, Row, RowModel};

verus! {

/// The block-level identifying fields an EVM transaction row denormalizes.
pub struct EvmHeader {
    pub parent_hash: Vec<u8>,
    pub coinbase: Vec<u8>,
    pub transactions_root: Vec<u8>,
    pub receipt_root: Vec<u8>,
}

/// One call frame within a transaction.
pub struct EvmCall {
    pub index: u64,
    pub parent_index: u64,
    pub depth: u64,
    pub caller: Vec<u8>,
    pub address: Vec<u8>,
    pub value: Option<Vec<u8>>,
    pub gas_limit: u64,
    pub gas_consumed: u64,
    pub begin_ordinal: u64,
    pub end_ordinal: u64,
}

/// One log entry of a transaction receipt.
pub struct EvmLog {
    pub index: u64,
    pub block_index: u64,
    pub address: Vec<u8>,
    pub topics: Vec<Vec<u8>>,
    pub data: Vec<u8>,
    pub ordinal: u64,
}

/// A transaction's post-execution receipt.
pub struct EvmReceipt {
    pub blob_gas_price: Option<Vec<u8>>,
    pub blob_gas_used: Option<u64>,
    pub cumulative_gas_used: u64,
    pub logs_bloom: Vec<u8>,
    pub state_root: Vec<u8>,
    pub logs: Vec<EvmLog>,
}

/// One transaction trace of a block.
pub struct EvmTransaction {
    pub index: u64,
    pub hash: Vec<u8>,
    pub from: Vec<u8>,
    pub to: Vec<u8>,
    pub nonce: u64,
    pub gas_price: Option<Vec<u8>>,
    pub gas_limit: u64,
    pub value: Option<Vec<u8>>,
    pub input: Vec<u8>,
    pub v: Vec<u8>,
    pub r: Vec<u8>,
    pub s: Vec<u8>,
    pub gas_used: u64,
    pub type_code: i32,
    pub max_fee_per_gas: Option<Vec<u8>>,
    pub max_priority_fee_per_gas: Option<Vec<u8>>,
    pub begin_ordinal: u64,
    pub end_ordinal: u64,
    pub status: i32,
    pub receipt: Option<EvmReceipt>,
    pub calls: Vec<EvmCall>,
}

/// One decoded EVM block. The detail level is the feed's sentinel: logs are
/// structurally present only at full detail (value two).
pub struct EvmBlock {
    pub detail_level: i32,
    pub header: Option<EvmHeader>,
    pub transaction_traces: Vec<EvmTransaction>,
}

/// The denormalized parent-transaction columns every child row carries. On a
/// row that is itself a transaction, the address fields keep their plain
/// names; on a child row they carry the `tx_` prefix.
pub open spec fn metadata_columns(t: EvmTransaction, is_transaction: bool) -> Seq<
    (Seq<char>, Seq<char>),
> {
    seq![
        ("tx_index"@, dec_of(t.index as nat)),
        ("tx_hash"@, hex_of(t.hash@)),
        (if is_transaction { "from"@ } else { "tx_from"@ }, hex_of(t.from@)),
        (if is_transaction { "to"@ } else { "tx_to"@ }, hex_of(t.to@)),
        ("tx_status"@, status_label(t.status)),
        ("tx_status_code"@, dec_of_int(t.status as int)),
        ("tx_success"@, bool_label(spec_is_success(t.status))),
    ]
}

/// Appends the denormalized parent-transaction columns to a row.
pub fn insert_transaction_metadata(row: &mut Row, transaction: &EvmTransaction, is_transaction: bool)
    ensures
        final(row)@.table == old(row)@.table,
        final(row)@.key == old(row)@.key,
        final(row)@.columns == old(row)@.columns + metadata_columns(*transaction, is_transaction),
{
    row.set("tx_index", u64_to_string(transaction.index));
    row.set("tx_hash", bytes_to_hex(&transaction.hash));
    if is_transaction {
        row.set("from", bytes_to_hex(&transaction.from));
        row.set("to", bytes_to_hex(&transaction.to));
    } else {
        row.set("tx_from", bytes_to_hex(&transaction.from));
        row.set("tx_to", bytes_to_hex(&transaction.to));
    }
    row.set("tx_status", transaction_status_to_string(transaction.status));
    row.set("tx_status_code", i64_to_string(transaction.status as i64));
    row.set("tx_success", bool_to_string(is_transaction_success(transaction.status)));
    proof {
        assert(row@.columns =~= old(row)@.columns + metadata_columns(*transaction, is_transaction));
    }
}

/// The scalar columns of a transaction row, before the block-context stamp.
pub open spec fn transaction_columns(t: EvmTransaction, rc: EvmReceipt, h: EvmHeader) -> Seq<
    (Seq<char>, Seq<char>),
> {
    seq![
        ("index"@, dec_of(t.index as nat)),
        ("hash"@, hex_of(t.hash@)),
        ("from"@, hex_of(t.from@)),
        ("to"@, hex_of(t.to@)),
        ("nonce"@, dec_of(t.nonce as nat)),
        ("gas_price"@, opt_bigint_dec(t.gas_price, "0"@)),
        ("gas_limit"@, dec_of(t.gas_limit as nat)),
        ("value"@, opt_bigint_dec(t.value, "0"@)),
        ("input"@, hex_of(t.input@)),
        ("v"@, hex_of(t.v@)),
        ("r"@, hex_of(t.r@)),
        ("s"@, hex_of(t.s@)),
        ("gas_used"@, dec_of(t.gas_used as nat)),
        ("type"@, type_label(t.type_code)),
        ("type_code"@, dec_of_int(t.type_code as int)),
        ("max_fee_per_gas"@, opt_bigint_dec(t.max_fee_per_gas, "0"@)),
        ("max_priority_fee_per_gas"@, opt_bigint_dec(t.max_priority_fee_per_gas, "0"@)),
        ("begin_ordinal"@, dec_of(t.begin_ordinal as nat)),
        ("end_ordinal"@, dec_of(t.end_ordinal as nat)),
        ("success"@, bool_label(spec_is_success(t.status))),
        ("status"@, status_label(t.status)),
        ("status_code"@, dec_of_int(t.status as int)),
        ("blob_gas_price"@, opt_bigint_dec(rc.blob_gas_price, "0"@)),
        ("blob_gas_used"@, dec_of(match rc.blob_gas_used {
            Some(x) => x as nat,
            None => 0,
        })),
        ("cumulative_gas_used"@, dec_of(rc.cumulative_gas_used as nat)),
        ("logs_bloom"@, hex_of(rc.logs_bloom@)),
        ("state_root"@, hex_of(rc.state_root@)),
        ("transactions_root"@, hex_of(h.transactions_root@)),
        ("receipts_root"@, hex_of(h.receipt_root@)),
    ]
}

/// The model of one transaction row.
pub open spec fn transaction_row(c: BlockClock, t: EvmTransaction, rc: EvmReceipt, h: EvmHeader)
    -> RowModel {
    RowModel {
        table: "transactions"@,
        key: transaction_key_model(c, hex_of(t.hash@)),
        columns: transaction_columns(t, rc, h) + timestamp_columns(c, false),
    }
}

/// The scalar columns of a trace row, before the parent metadata and the
/// block-context stamp.
pub open spec fn trace_columns(call: EvmCall) -> Seq<(Seq<char>, Seq<char>)> {
    seq![
        ("index"@, dec_of(call.index as nat)),
        ("parent_index"@, dec_of(call.parent_index as nat)),
        ("depth"@, dec_of(call.depth as nat)),
        ("caller"@, hex_of(call.caller@)),
        ("address"@, hex_of(call.address@)),
        ("value"@, opt_bigint_dec(call.value, "0"@)),
        ("gas_limit"@, dec_of(call.gas_limit as nat)),
        ("gas_consumed"@, dec_of(call.gas_consumed as nat)),
        ("begin_ordinal"@, dec_of(call.begin_ordinal as nat)),
        ("end_ordinal"@, dec_of(call.end_ordinal as nat)),
    ]
}

/// The model of one trace row.
pub open spec fn trace_row(c: BlockClock, t: EvmTransaction, call: EvmCall) -> RowModel {
    RowModel {
        table: "traces"@,
        key: child_key_model(c, hex_of(t.hash@), call.index),
        columns: trace_columns(call) + metadata_columns(t, false) + timestamp_columns(c, false),
    }
}

/// Appends one trace row for a call frame.
pub fn insert_trace(tables: &mut Vec<Row>, clock: &BlockClock, call: &EvmCall, transaction: &EvmTransaction)
    ensures
        models(final(tables)@) == models(old(tables)@).push(trace_row(*clock, *transaction, *call)),
{
    let tx_hash = bytes_to_hex(&transaction.hash);
    let mut row = Row::new("traces");
    child_keys(&mut row, clock, &tx_hash, call.index);
    row.set("index", u64_to_string(call.index));
    row.set("parent_index", u64_to_string(call.parent_index));
    row.set("depth", u64_to_string(call.depth));
    row.set("caller", bytes_to_hex(&call.caller));
    row.set("address", bytes_to_hex(&call.address));
    row.set("value", optional_bigint_to_string(&call.value, "0"));
    row.set("gas_limit", u64_to_string(call.gas_limit));
    row.set("gas_consumed", u64_to_string(call.gas_consumed));
    row.set("begin_ordinal", u64_to_string(call.begin_ordinal));
    row.set("end_ordinal", u64_to_string(call.end_ordinal));
    proof {
        assert(row@.columns =~= trace_columns(*call));
    }
    insert_transaction_metadata(&mut row, transaction, false);
    insert_timestamp(&mut row, clock, false);
    proof {
        assert(row@ == trace_row(*clock, *transaction, *call));
    }
    push_row(tables, row);
}

/// The comma-joined lowercase hexadecimal forms of a log's topics.
pub open spec fn topics_csv(ts: Seq<Vec<u8>>) -> Seq<char>
    decreases ts.len(),
{
    if ts.len() == 0 {
        Seq::empty()
    } else if ts.len() == 1 {
        hex_of(ts[0]@)
    } else {
        topics_csv(ts.drop_last()) + seq![','] + hex_of(ts.last()@)
    }
}

/// Joins the hexadecimal forms of a log's topics with commas.
pub fn topics_to_csv(topics: &Vec<Vec<u8>>) -> (r: String)
    ensures
        r@ == topics_csv(topics@),
{
    let mut r = String::new();
    let mut i: usize = 0;
    while i < topics.len()
        invariant
            i <= topics.len(),
            r@ == topics_csv(topics@.take(i as int)),
        decreases topics.len() - i,
    {
        if i > 0 {
            r.append(",");
        }
        let h = bytes_to_hex(&topics[i]);
        r.append(h.as_str());
        proof {
            reveal_strlit(",");
            assert(topics@.take(i as int + 1).drop_last() =~= topics@.take(i as int));
            assert(topics@.take(i as int + 1).last() == topics@[i as int]);
            assert(r@ =~= topics_csv(topics@.take(i as int + 1)));
        }
        i = i + 1;
    }
    proof {
        assert(topics@.take(topics@.len() as int) =~= topics@);
    }
    r
}

/// The scalar columns of a log row, before the parent metadata and the
/// block-context stamp.
pub open spec fn log_columns(lg: EvmLog) -> Seq<(Seq<char>, Seq<char>)> {
    seq![
        ("index"@, dec_of(lg.index as nat)),
        ("block_index"@, dec_of(lg.block_index as nat)),
        ("address"@, hex_of(lg.address@)),
        ("topics"@, topics_csv(lg.topics@)),
        ("data"@, hex_of(lg.data@)),
        ("ordinal"@, dec_of(lg.ordinal as nat)),
    ]
}

/// The model of one log row.
pub open spec fn log_row(c: BlockClock, t: EvmTransaction, lg: EvmLog) -> RowModel {
    RowModel {
        table: "logs"@,
        key: child_key_model(c, hex_of(t.hash@), lg.index),
        columns: log_columns(lg) + metadata_columns(t, false) + timestamp_columns(c, false),
    }
}

/// Appends one log row for a receipt log entry.
pub fn insert_log(tables: &mut Vec<Row>, clock: &BlockClock, log: &EvmLog, transaction: &EvmTransaction)
    ensures
        models(final(tables)@) == models(old(tables)@).push(log_row(*clock, *transaction, *log)),
{
    let tx_hash = bytes_to_hex(&transaction.hash);
    let mut row = Row::new("logs");
    child_keys(&mut row, clock, &tx_hash, log.index);
    row.set("index", u64_to_string(log.index));
    row.set("block_index", u64_to_string(log.block_index));
    row.set("address", bytes_to_hex(&log.address));
    row.set("topics", topics_to_csv(&log.topics));
    row.set("data", bytes_to_hex(&log.data));
    row.set("ordinal", u64_to_string(log.ordinal));
    proof {
        assert(row@.columns =~= log_columns(*log));
    }
    insert_transaction_metadata(&mut row, transaction, false);
    insert_timestamp(&mut row, clock, false);
    proof {
        assert(row@ == log_row(*clock, *transaction, *log));
    }
    push_row(tables, row);
}

/// All rows one transaction trace contributes: its own row, one row per
/// call frame, and — only at full block detail — one row per receipt log.
pub open spec fn transaction_rows(c: BlockClock, b: EvmBlock, t: EvmTransaction) -> Seq<RowModel> {
    match (t.receipt, b.header) {
        (Some(rc), Some(h)) => seq![transaction_row(c, t, rc, h)] + t.calls@.map_values(
            |call: EvmCall| trace_row(c, t, call),
        ) + if b.detail_level == 2 {
            rc.logs@.map_values(|lg: EvmLog| log_row(c, t, lg))
        } else {
            Seq::empty()
        },
        _ => Seq::empty(),
    }
}

/// Appends every row of one transaction trace. The receipt is required; so
/// is the header, whose roots the transaction row denormalizes. On failure
/// nothing is appended.
#[verifier::rlimit(50)]
pub fn insert_transaction(
    tables: &mut Vec<Row>,
    clock: &BlockClock,
    transaction: &EvmTransaction,
    block: &EvmBlock,
) -> (res: Result<(), ExtractError>)
    ensures
        match res {
            Ok(_) => transaction.receipt is Some && block.header is Some && models(final(tables)@)
                == models(old(tables)@) + transaction_rows(*clock, *block, *transaction),
            Err(e) => {
                &&& final(tables)@ == old(tables)@
                &&& (transaction.receipt is None || block.header is None)
                &&& e == (if transaction.receipt is None {
                    ExtractError::MissingReceipt
                } else {
                    ExtractError::MissingHeader
                })
            },
        },
{
    let receipt = match &transaction.receipt {
        Some(rc) => rc,
        None => {
            return Err(ExtractError::MissingReceipt);
        },
    };
    let header = match &block.header {
        Some(h) => h,
        None => {
            return Err(ExtractError::MissingHeader);
        },
    };
    let hash = bytes_to_hex(&transaction.hash);
    let mut row = Row::new("transactions");
    transaction_keys(&mut row, clock, &hash);
    row.set("index", u64_to_string(transaction.index));
    row.set("hash", hash);
    row.set("from", bytes_to_hex(&transaction.from));
    row.set("to", bytes_to_hex(&transaction.to));
    row.set("nonce", u64_to_string(transaction.nonce));
    row.set("gas_price", optional_bigint_to_string(&transaction.gas_price, "0"));
    row.set("gas_limit", u64_to_string(transaction.gas_limit));
    row.set("value", optional_bigint_to_string(&transaction.value, "0"));
    row.set("input", bytes_to_hex(&transaction.input));
    row.set("v", bytes_to_hex(&transaction.v));
    row.set("r", bytes_to_hex(&transaction.r));
    row.set("s", bytes_to_hex(&transaction.s));
    row.set("gas_used", u64_to_string(transaction.gas_used));
    row.set("type", transaction_type_to_string(transaction.type_code));
    row.set("type_code", i64_to_string(transaction.type_code as i64));
    row.set("max_fee_per_gas", optional_bigint_to_string(&transaction.max_fee_per_gas, "0"));
    row.set(
        "max_priority_fee_per_gas",
        optional_bigint_to_string(&transaction.max_priority_fee_per_gas, "0"),
    );
    row.set("begin_ordinal", u64_to_string(transaction.begin_ordinal));
    row.set("end_ordinal", u64_to_string(transaction.end_ordinal));
    row.set("success", bool_to_string(is_transaction_success(transaction.status)));
    row.set("status", transaction_status_to_string(transaction.status));
    row.set("status_code", i64_to_string(transaction.status as i64));
    row.set("blob_gas_price", optional_bigint_to_string(&receipt.blob_gas_price, "0"));
    let blob_gas_used = match receipt.blob_gas_used {
        Some(x) => x,
        None => 0,
    };
    row.set("blob_gas_used", u64_to_string(blob_gas_used));
    row.set("cumulative_gas_used", u64_to_string(receipt.cumulative_gas_used));
    row.set("logs_bloom", bytes_to_hex(&receipt.logs_bloom));
    row.set("state_root", bytes_to_hex(&receipt.state_root));
    row.set("transactions_root", bytes_to_hex(&header.transactions_root));
    row.set("receipts_root", bytes_to_hex(&header.receipt_root));
    proof {
        assert(row@.columns =~= transaction_columns(*transaction, *receipt, *header));
    }
    insert_timestamp(&mut row, clock, false);
    proof {
        assert(row@ == transaction_row(*clock, *transaction, *receipt, *header));
    }
    push_row(tables, row);
    let ghost base = models(old(tables)@).push(
        transaction_row(*clock, *transaction, *receipt, *header),
    );
    let mut i: usize = 0;
    while i < transaction.calls.len()
        invariant
            i <= transaction.calls.len(),
            models(tables@) == base + transaction.calls@.take(i as int).map_values(
                |call: EvmCall| trace_row(*clock, *transaction, call),
            ),
        decreases transaction.calls.len() - i,
    {
        insert_trace(tables, clock, &transaction.calls[i], transaction);
        proof {
            assert(transaction.calls@.take(i as int + 1).map_values(
                |call: EvmCall| trace_row(*clock, *transaction, call),
            ) =~= transaction.calls@.take(i as int).map_values(
                |call: EvmCall| trace_row(*clock, *transaction, call),
            ).push(trace_row(*clock, *transaction, transaction.calls@[i as int])));
            assert(models(tables@) =~= base + transaction.calls@.take(i as int + 1).map_values(
                |call: EvmCall| trace_row(*clock, *transaction, call),
            ));
        }
        i = i + 1;
    }
    proof {
        assert(transaction.calls@.take(transaction.calls@.len() as int) =~= transaction.calls@);
    }
    let ghost base2 = base + transaction.calls@.map_values(
        |call: EvmCall| trace_row(*clock, *transaction, call),
    );
    if block.detail_level == 2 {
        let mut j: usize = 0;
        while j < receipt.logs.len()
            invariant
                j <= receipt.logs.len(),
                models(tables@) == base2 + receipt.logs@.take(j as int).map_values(
                    |lg: EvmLog| log_row(*clock, *transaction, lg),
                ),
            decreases receipt.logs.len() - j,
        {
            insert_log(tables, clock, &receipt.logs[j], transaction);
            proof {
                assert(receipt.logs@.take(j as int + 1).map_values(
                    |lg: EvmLog| log_row(*clock, *transaction, lg),
                ) =~= receipt.logs@.take(j as int).map_values(
                    |lg: EvmLog| log_row(*clock, *transaction, lg),
                ).push(log_row(*clock, *transaction, receipt.logs@[j as int])));
                assert(models(tables@) =~= base2 + receipt.logs@.take(j as int + 1).map_values(
                    |lg: EvmLog| log_row(*clock, *transaction, lg),
                ));
            }
            j = j + 1;
        }
        proof {
            assert(receipt.logs@.take(receipt.logs@.len() as int) =~= receipt.logs@);
            assert(models(tables@) =~= models(old(tables)@) + transaction_rows(
                *clock,
                *block,
                *transaction,
            ));
        }
    } else {
        proof {
            assert(models(tables@) =~= models(old(tables)@) + transaction_rows(
                *clock,
                *block,
                *transaction,
            ));
        }
    }
    Ok(())
}

/// A transaction can be fully extracted: its receipt is present, and so is
/// the block header it denormalizes.
pub open spec fn tx_ok(b: EvmBlock, t: EvmTransaction) -> bool {
    t.receipt is Some && b.header is Some
}

/// The fatal condition a transaction raises when it cannot be extracted.
pub open spec fn tx_err(t: EvmTransaction) -> ExtractError {
    if t.receipt is None {
        ExtractError::MissingReceipt
    } else {
        ExtractError::MissingHeader
    }
}

/// All rows of the block's first `n` transaction traces, in trace order.
pub open spec fn evm_txs_rows(c: BlockClock, b: EvmBlock, n: int) -> Seq<RowModel>
    decreases n,
{
    if n <= 0 {
        Seq::empty()
    } else {
        evm_txs_rows(c, b, n - 1) + transaction_rows(c, b, b.transaction_traces@[n - 1])
    }
}

/// Index of the first transaction trace from `i` on that cannot be fully
/// extracted, or the trace count when every one can.
pub open spec fn first_bad_from(b: EvmBlock, i: int) -> int
    decreases b.transaction_traces@.len() - i,
{
    if i >= b.transaction_traces@.len() {
        i
    } else if !tx_ok(b, b.transaction_traces@[i]) {
        i
    } else {
        first_bad_from(b, i + 1)
    }
}

/// A scan that found every trace below `i` extractable, and a bad trace or
/// the end at `i`, found the first bad trace.
proof fn lemma_first_bad_from(b: EvmBlock, j: int, i: int)
    requires
        0 <= j <= i <= b.transaction_traces@.len(),
        forall|k: int| j <= k < i ==> tx_ok(b, b.transaction_traces@[k]),
        i < b.transaction_traces@.len() ==> !tx_ok(b, b.transaction_traces@[i]),
    ensures
        first_bad_from(b, j) == i,
    decreases i - j,
{
    if j < i {
        lemma_first_bad_from(b, j + 1, i);
    }
}

/// Appends every row of every transaction trace of the block, in trace
/// order. The first trace without a receipt, or any trace at all when the
/// header is absent, aborts the extraction; the rows of the traces before it
/// have then already been appended.
pub fn insert_transactions(tables: &mut Vec<Row>, clock: &BlockClock, block: &EvmBlock) -> (res:
    Result<(), ExtractError>)
    ensures
        match res {
            Ok(_) => first_bad_from(*block, 0) == block.transaction_traces@.len() && models(
                final(tables)@,
            ) == models(old(tables)@) + evm_txs_rows(
                *clock,
                *block,
                block.transaction_traces@.len() as int,
            ),
            Err(e) => {
                &&& first_bad_from(*block, 0) < block.transaction_traces@.len()
                &&& e == tx_err(block.transaction_traces@[first_bad_from(*block, 0)])
                &&& models(final(tables)@) == models(old(tables)@) + evm_txs_rows(
                    *clock,
                    *block,
                    first_bad_from(*block, 0),
                )
            },
        },
{
    let ghost base = models(old(tables)@);
    let mut i: usize = 0;
    while i < block.transaction_traces.len()
        invariant
            i <= block.transaction_traces.len(),
            base == models(old(tables)@),
            forall|k: int| 0 <= k < i ==> tx_ok(*block, block.transaction_traces@[k]),
            models(tables@) == base + evm_txs_rows(*clock, *block, i as int),
        decreases block.transaction_traces.len() - i,
    {
        match insert_transaction(tables, clock, &block.transaction_traces[i], block) {
            Ok(_) => {
                proof {
                    assert(models(tables@) =~= base + evm_txs_rows(*clock, *block, i as int + 1));
                }
            },
            Err(e) => {
                proof {
                    lemma_first_bad_from(*block, 0, i as int);
                }
                return Err(e);
            },
        }
        i = i + 1;
    }
    proof {
        lemma_first_bad_from(*block, 0, block.transaction_traces@.len() as int);
    }
    Ok(())
}

/// The scalar columns of the block row: the header's identifying fields,
/// with empty defaults when the header is absent, and, when asked for, the
/// count of transaction traces.
pub open spec fn block_columns(b: EvmBlock, with_counts: bool) -> Seq<(Seq<char>, Seq<char>)> {
    let base = seq![
        ("parent_hash"@, match b.header {
            Some(h) => hex_of(h.parent_hash@),
            None => Seq::<char>::empty(),
        }),
        ("miner"@, match b.header {
            Some(h) => hex_of(h.coinbase@),
            None => Seq::<char>::empty(),
        }),
        ("transactions_root"@, match b.header {
            Some(h) => hex_of(h.transactions_root@),
            None => Seq::<char>::empty(),
        }),
        ("receipts_root"@, match b.header {
            Some(h) => hex_of(h.receipt_root@),
            None => Seq::<char>::empty(),
        }),
    ];
    if with_counts {
        base.push(("transaction_count"@, dec_of(b.transaction_traces@.len())))
    } else {
        base
    }
}

/// The model of the block row.
pub open spec fn block_row(c: BlockClock, b: EvmBlock, with_counts: bool) -> RowModel {
    RowModel {
        table: "blocks"@,
        key: seq![("hash"@, c.hash@)],
        columns: block_columns(b, with_counts) + timestamp_columns(c, true),
    }
}

/// Appends the block row. The EVM path emits it unconditionally; an absent
/// header degrades its identifying columns to empty strings.
pub fn insert_blocks(tables: &mut Vec<Row>, clock: &BlockClock, block: &EvmBlock, with_counts: bool)
    ensures
        models(final(tables)@) == models(old(tables)@).push(block_row(*clock, *block, with_counts)),
{
    let mut row = Row::new("blocks");
    row.add_key("hash", clock.hash.clone());
    match &block.header {
        Some(h) => {
            row.set("parent_hash", bytes_to_hex(&h.parent_hash));
            row.set("miner", bytes_to_hex(&h.coinbase));
            row.set("transactions_root", bytes_to_hex(&h.transactions_root));
            row.set("receipts_root", bytes_to_hex(&h.receipt_root));
        },
        None => {
            row.set("parent_hash", String::new());
            row.set("miner", String::new());
            row.set("transactions_root", String::new());
            row.set("receipts_root", String::new());
        },
    }
    if with_counts {
        let n = block.transaction_traces.len();
        row.set("transaction_count", u64_to_string(n as u64));
    }
    proof {
        assert(row@.columns =~= block_columns(*block, with_counts));
        assert(row@.key =~= seq![("hash"@, clock.hash@)]);
    }
    insert_timestamp(&mut row, clock, true);
    proof {
        assert(row@ == block_row(*clock, *block, with_counts));
    }
    push_row(tables, row);
}

/// The whole block can be extracted: every transaction trace has its
/// receipt, and the header is present whenever a trace needs it.
pub open spec fn evm_ok(b: EvmBlock) -> bool {
    first_bad_from(b, 0) == b.transaction_traces@.len()
}

/// The full change set of one EVM invocation: the block row, then every
/// transaction trace's rows in trace order.
pub open spec fn evm_rows(c: BlockClock, b: EvmBlock, with_counts: bool) -> Seq<RowModel> {
    seq![block_row(c, b, with_counts)] + evm_txs_rows(c, b, b.transaction_traces@.len() as int)
}

/// One EVM invocation: a pure function from block and clock to the change
/// set. On the fatal condition no partial change set is returned.
pub fn evm_changes(clock: &BlockClock, block: &EvmBlock, with_counts: bool) -> (res: Result<
    Vec<Row>,
    ExtractError,
>)
    ensures
        match res {
            Ok(rows) => evm_ok(*block) && models(rows@) == evm_rows(*clock, *block, with_counts),
            Err(e) => !evm_ok(*block) && e == tx_err(
                block.transaction_traces@[first_bad_from(*block, 0)],
            ),
        },
{
    let mut rows: Vec<Row> = Vec::new();
    proof {
        assert(models(rows@) =~= Seq::<RowModel>::empty());
    }
    insert_blocks(&mut rows, clock, block, with_counts);
    match insert_transactions(&mut rows, clock, block) {
        Ok(_) => {
            proof {
                assert(models(rows@) =~= evm_rows(*clock, *block, with_counts));
                assert(first_bad_from(*block, 0) <= block.transaction_traces@.len()) by {
                    lemma_first_bad_le(*block, 0);
                }
            }
            Ok(rows)
        },
        Err(e) => Err(e),
    }
}

/// The first bad index never passes the trace count.
proof fn lemma_first_bad_le(b: EvmBlock, i: int)
    requires
        0 <= i <= b.transaction_traces@.len(),
    ensures
        i <= first_bad_from(b, i) <= b.transaction_traces@.len(),
    decreases b.transaction_traces@.len() - i,
{
    if i < b.transaction_traces@.len() && tx_ok(b, b.transaction_traces@[i]) {
        lemma_first_bad_le(b, i + 1);
    }
}

/// Extraction is idempotent: two invocations on the same block, clock and
/// flag yield the same change set — same rows, same keys, same column
/// values, in the same order.
pub proof fn lemma_evm_idempotent(
    c: BlockClock,
    b: EvmBlock,
    with_counts: bool,
    r1: Seq<RowModel>,
    r2: Seq<RowModel>,
)
    requires
        r1 == evm_rows(c, b, with_counts),
        r2 == evm_rows(c, b, with_counts),
    ensures
        r1 == r2,
{
}

/// No row of one transaction trace goes to the log table when the block's
/// detail level is not the full-detail sentinel.
proof fn lemma_tx_rows_no_logs(c: BlockClock, b: EvmBlock, t: EvmTransaction)
    requires
        b.detail_level != 2,
    ensures
        forall|i: int|
            0 <= i < transaction_rows(c, b, t).len() ==> transaction_rows(c, b, t)[i].table
                != "logs"@,
{
    reveal_strlit("logs");
    reveal_strlit("transactions");
    reveal_strlit("traces");
    assert("logs"@.len() == 4);
    assert("transactions"@.len() == 12);
    assert("traces"@.len() == 6);
    match (t.receipt, b.header) {
        (Some(rc), Some(h)) => {
            let s = transaction_rows(c, b, t);
            assert(s.len() == 1 + t.calls@.len());
            assert forall|i: int| 0 <= i < s.len() implies s[i].table != "logs"@ by {
                if i == 0 {
                    assert(s[i] == transaction_row(c, t, rc, h));
                    assert(s[i].table == "transactions"@);
                } else {
                    assert(s[i] == trace_row(c, t, t.calls@[i - 1]));
                    assert(s[i].table == "traces"@);
                }
            }
        },
        _ => {},
    }
}

/// No row of the block's first `n` transaction traces goes to the log table
/// when the block's detail level is not the full-detail sentinel.
proof fn lemma_txs_rows_no_logs(c: BlockClock, b: EvmBlock, n: int)
    requires
        b.detail_level != 2,
    ensures
        forall|i: int| 0 <= i < evm_txs_rows(c, b, n).len() ==> evm_txs_rows(c, b, n)[i].table
            != "logs"@,
    decreases n,
{
    if n > 0 {
        lemma_txs_rows_no_logs(c, b, n - 1);
        lemma_tx_rows_no_logs(c, b, b.transaction_traces@[n - 1]);
        let a = evm_txs_rows(c, b, n - 1);
        let d = transaction_rows(c, b, b.transaction_traces@[n - 1]);
        assert forall|i: int| 0 <= i < evm_txs_rows(c, b, n).len() implies evm_txs_rows(
            c,
            b,
            n,
        )[i].table != "logs"@ by {
            if i < a.len() {
                assert(evm_txs_rows(c, b, n)[i] == a[i]);
            } else {
                assert(evm_txs_rows(c, b, n)[i] == d[i - a.len()]);
            }
        }
    }
}

/// Conditional emission: when the block's detail level is not the
/// full-detail sentinel, the change set holds no log row at all, whatever
/// log entries the receipts carry.
pub proof fn lemma_no_logs_below_full_detail(c: BlockClock, b: EvmBlock, with_counts: bool)
    requires
        b.detail_level != 2,
    ensures
        forall|i: int|
            0 <= i < evm_rows(c, b, with_counts).len() ==> evm_rows(c, b, with_counts)[i].table
                != "logs"@,
{
    lemma_txs_rows_no_logs(c, b, b.transaction_traces@.len() as int);
    reveal_strlit("logs");
    reveal_strlit("blocks");
    assert("logs"@.len() == 4);
    assert("blocks"@.len() == 6);
    let a = seq![block_row(c, b, with_counts)];
    let d = evm_txs_rows(c, b, b.transaction_traces@.len() as int);
    assert forall|i: int| 0 <= i < evm_rows(c, b, with_counts).len() implies evm_rows(
        c,
        b,
        with_counts,
    )[i].table != "logs"@ by {
        if i == 0 {
            assert(evm_rows(c, b, with_counts)[i] == block_row(c, b, with_counts));
        } else {
            assert(evm_rows(c, b, with_counts)[i] == d[i - 1]);
        }
    }
}

} // verus!
