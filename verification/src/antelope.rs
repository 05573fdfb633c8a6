//! Extraction of Antelope entity rows: one transaction row per matching
//! transaction trace, one action row per action trace with one authorization
//! row per authorization entry, and the block row — emitted only when at
//! least one transaction matched the caller-supplied filter.

use vstd::prelude::*;
use vstd::string::StringExecFns;
use crate::clock::BlockClock;
use crate::dates::{block_date_to_month, block_date_to_year, block_time_to_date, date_of, month_of,
    year_of};
use crate::encode::{bytes_to_hex, hex_of};
use crate::keys::{action_key, action_key_model};
use crate::numbers::{dec_of, dec_of_int, i64_to_string, u64_to_string};
use crate::rows::{models, push_row, Row, RowModel};

verus! {

/// The block-level identifying fields the block row carries.
pub struct AnteHeader {
    pub previous: String,
    pub producer: String,
}

/// One authorizing account/permission pair of an action.
pub struct AnteAuthorization {
    pub actor: String,
    pub permission: String,
}

/// The payload of one action.
pub struct AnteAction {
    pub account: String,
    pub name: String,
    pub json_data: String,
    pub raw_data: Vec<u8>,
    pub authorization: Vec<AnteAuthorization>,
}

/// One action trace of a transaction; the action payload is optional and
/// degrades to empty fields when absent.
pub struct AnteActionTrace {
    pub action: Option<AnteAction>,
    pub action_ordinal: u64,
}

/// One transaction trace of a block.
pub struct AnteTransaction {
    pub id: String,
    pub index: u64,
    pub elapsed: i64,
    pub net_usage: u64,
    pub cpu_usage_micro_seconds: u64,
    pub action_traces: Vec<AnteActionTrace>,
}

/// One decoded Antelope block.
pub struct AnteBlock {
    pub header: Option<AnteHeader>,
    pub transaction_traces: Vec<AnteTransaction>,
}

/// The string key of an authorization entity: its action's key and the
/// authorization's local index, joined by a dash.
pub open spec fn authorization_key_model(tx_id: Seq<char>, ordinal: u64, index: int) -> Seq<
    char,
> {
    action_key_model(tx_id, ordinal) + seq!['-'] + dec_of(index as nat)
}

/// The model of one action row.
pub open spec fn action_row(t: AnteTransaction, tr: AnteActionTrace) -> RowModel {
    RowModel {
        table: "Action"@,
        key: seq![("id"@, action_key_model(t.id@, tr.action_ordinal))],
        columns: seq![
            ("transaction"@, t.id@),
            ("ordinal"@, dec_of(tr.action_ordinal as nat)),
            ("account"@, match tr.action {
                Some(a) => a.account@,
                None => Seq::<char>::empty(),
            }),
            ("name"@, match tr.action {
                Some(a) => a.name@,
                None => Seq::<char>::empty(),
            }),
            ("jsonData"@, match tr.action {
                Some(a) => a.json_data@,
                None => Seq::<char>::empty(),
            }),
            ("rawData"@, match tr.action {
                Some(a) => hex_of(a.raw_data@),
                None => Seq::<char>::empty(),
            }),
        ],
    }
}

/// The model of one authorization row: a back-reference to its action's key,
/// its own local index, and the authorizing account and permission.
pub open spec fn authorization_row(
    t: AnteTransaction,
    tr: AnteActionTrace,
    a: AnteAuthorization,
    index: int,
) -> RowModel {
    RowModel {
        table: "Authorization"@,
        key: seq![("id"@, authorization_key_model(t.id@, tr.action_ordinal, index))],
        columns: seq![
            ("action"@, action_key_model(t.id@, tr.action_ordinal)),
            ("index"@, dec_of(index as nat)),
            ("actor"@, a.actor@),
            ("permission"@, a.permission@),
        ],
    }
}

/// The authorization rows of one action trace, one per entry in order; an
/// absent action payload, like an empty authorization list, yields none.
pub open spec fn authorization_rows(t: AnteTransaction, tr: AnteActionTrace) -> Seq<RowModel> {
    match tr.action {
        Some(a) => Seq::new(
            a.authorization@.len(),
            |i: int| authorization_row(t, tr, a.authorization@[i], i),
        ),
        None => Seq::empty(),
    }
}

/// All rows one action trace contributes: its action row, then one row per
/// authorization entry.
pub open spec fn action_rows(t: AnteTransaction, tr: AnteActionTrace) -> Seq<RowModel> {
    seq![action_row(t, tr)] + authorization_rows(t, tr)
}

/// Appends one authorization row.
pub fn insert_authorization(
    tables: &mut Vec<Row>,
    trace: &AnteActionTrace,
    transaction: &AnteTransaction,
    authorization: &AnteAuthorization,
    index: u64,
)
    ensures
        models(final(tables)@) == models(old(tables)@).push(
            authorization_row(*transaction, *trace, *authorization, index as int),
        ),
{
    let k = action_key(&transaction.id, trace.action_ordinal);
    let mut ak = k.clone();
    ak.append("-");
    let ix = u64_to_string(index);
    ak.append(ix.as_str());
    proof {
        reveal_strlit("-");
        assert(ak@ =~= authorization_key_model(transaction.id@, trace.action_ordinal, index as int));
    }
    let mut row = Row::new("Authorization");
    row.add_key("id", ak);
    row.set("action", k);
    row.set("index", u64_to_string(index));
    row.set("actor", authorization.actor.clone());
    row.set("permission", authorization.permission.clone());
    proof {
        let m = authorization_row(*transaction, *trace, *authorization, index as int);
        assert(row@.key =~= m.key);
        assert(row@.columns =~= m.columns);
        assert(row@ == m);
    }
    push_row(tables, row);
}

/// Appends every row of one action trace: the action row, then one
/// authorization row per entry, each with its local index.
pub fn insert_action(tables: &mut Vec<Row>, trace: &AnteActionTrace, transaction: &AnteTransaction)
    ensures
        models(final(tables)@) == models(old(tables)@) + action_rows(*transaction, *trace),
{
    let k = action_key(&transaction.id, trace.action_ordinal);
    let mut row = Row::new("Action");
    row.add_key("id", k);
    row.set("transaction", transaction.id.clone());
    row.set("ordinal", u64_to_string(trace.action_ordinal));
    match &trace.action {
        Some(a) => {
            row.set("account", a.account.clone());
            row.set("name", a.name.clone());
            row.set("jsonData", a.json_data.clone());
            row.set("rawData", bytes_to_hex(&a.raw_data));
        },
        None => {
            row.set("account", String::new());
            row.set("name", String::new());
            row.set("jsonData", String::new());
            row.set("rawData", String::new());
        },
    }
    proof {
        let m = action_row(*transaction, *trace);
        assert(row@.key =~= m.key);
        assert(row@.columns =~= m.columns);
        assert(row@ == m);
    }
    push_row(tables, row);
    let ghost base = models(old(tables)@).push(action_row(*transaction, *trace));
    match &trace.action {
        Some(a) => {
            let mut j: usize = 0;
            while j < a.authorization.len()
                invariant
                    j <= a.authorization.len(),
                    trace.action matches Some(aa) && aa.authorization == a.authorization,
                    models(tables@) == base + authorization_rows(*transaction, *trace).take(
                        j as int,
                    ),
                decreases a.authorization.len() - j,
            {
                insert_authorization(tables, trace, transaction, &a.authorization[j], j as u64);
                proof {
                    let rows = authorization_rows(*transaction, *trace);
                    assert(rows[j as int] == authorization_row(
                        *transaction,
                        *trace,
                        a.authorization@[j as int],
                        j as int,
                    ));
                    assert(rows.take(j as int + 1) =~= rows.take(j as int).push(rows[j as int]));
                    assert(models(tables@) =~= base + rows.take(j as int + 1));
                }
                j = j + 1;
            }
            proof {
                let rows = authorization_rows(*transaction, *trace);
                assert(rows.take(rows.len() as int) =~= rows);
                assert(models(tables@) =~= models(old(tables)@) + action_rows(
                    *transaction,
                    *trace,
                ));
            }
        },
        None => {
            proof {
                assert(models(tables@) =~= models(old(tables)@) + action_rows(
                    *transaction,
                    *trace,
                ));
            }
        },
    }
}

/// One action trace matches the filter when its payload names the filter
/// string as its account or as its action name.
pub open spec fn matches_action(p: Seq<char>, tr: AnteActionTrace) -> bool {
    match tr.action {
        Some(a) => a.account@ == p || a.name@ == p,
        None => false,
    }
}

/// A transaction matches the filter when the filter is empty, or when one of
/// its action traces matches.
pub open spec fn matches_filter(p: Seq<char>, t: AnteTransaction) -> bool {
    p.len() == 0 || exists|i: int| 0 <= i < t.action_traces@.len() && matches_action(
        p,
        t.action_traces@[i],
    )
}

/// Decides whether a transaction matches the caller-supplied filter.
pub fn transaction_matches(params: &str, transaction: &AnteTransaction) -> (r: bool)
    ensures
        r == matches_filter(params@, *transaction),
{
    if params.is_empty() {
        return true;
    }
    let p = String::from_str(params);
    let mut j: usize = 0;
    while j < transaction.action_traces.len()
        invariant
            j <= transaction.action_traces.len(),
            p@ == params@,
            forall|k: int|
                0 <= k < j ==> !matches_action(params@, transaction.action_traces@[k]),
        decreases transaction.action_traces.len() - j,
    {
        match &transaction.action_traces[j].action {
            Some(a) => {
                if a.account == p || a.name == p {
                    proof {
                        assert(matches_action(params@, transaction.action_traces@[j as int]));
                    }
                    return true;
                }
            },
            None => {},
        }
        j = j + 1;
    }
    false
}

/// The columns of one transaction row.
pub open spec fn ante_transaction_columns(c: BlockClock, t: AnteTransaction) -> Seq<
    (Seq<char>, Seq<char>),
> {
    seq![
        ("index"@, dec_of(t.index as nat)),
        ("elapsed"@, dec_of_int(t.elapsed as int)),
        ("netUsage"@, dec_of(t.net_usage as nat)),
        ("cpuUsage"@, dec_of(t.cpu_usage_micro_seconds as nat)),
        ("block"@, c.hash@),
        ("blockNumber"@, dec_of(c.number as nat)),
        ("timestamp"@, dec_of_int(c.seconds as int)),
    ]
}

/// The model of one transaction row.
pub open spec fn ante_transaction_row(c: BlockClock, t: AnteTransaction) -> RowModel {
    RowModel {
        table: "Transaction"@,
        key: seq![("id"@, t.id@)],
        columns: ante_transaction_columns(c, t),
    }
}

/// All rows of the first `n` action traces of a transaction, in order.
pub open spec fn ante_actions_rows(t: AnteTransaction, n: int) -> Seq<RowModel>
    decreases n,
{
    if n <= 0 {
        Seq::empty()
    } else {
        ante_actions_rows(t, n - 1) + action_rows(t, t.action_traces@[n - 1])
    }
}

/// All rows one transaction trace contributes: nothing when it does not
/// match the filter; its own row and every action trace's rows when it does.
pub open spec fn ante_tx_rows(p: Seq<char>, c: BlockClock, t: AnteTransaction) -> Seq<RowModel> {
    if matches_filter(p, t) {
        seq![ante_transaction_row(c, t)] + ante_actions_rows(t, t.action_traces@.len() as int)
    } else {
        Seq::empty()
    }
}

/// Appends every row of one transaction trace, when it matches the filter;
/// returns whether it matched.
pub fn insert_transaction(
    params: &str,
    tables: &mut Vec<Row>,
    clock: &BlockClock,
    transaction: &AnteTransaction,
) -> (matched: bool)
    ensures
        matched == matches_filter(params@, *transaction),
        models(final(tables)@) == models(old(tables)@) + ante_tx_rows(
            params@,
            *clock,
            *transaction,
        ),
{
    let m = transaction_matches(params, transaction);
    if !m {
        proof {
            assert(models(tables@) =~= models(old(tables)@) + ante_tx_rows(
                params@,
                *clock,
                *transaction,
            ));
        }
        return false;
    }
    let mut row = Row::new("Transaction");
    row.add_key("id", transaction.id.clone());
    row.set("index", u64_to_string(transaction.index));
    row.set("elapsed", i64_to_string(transaction.elapsed));
    row.set("netUsage", u64_to_string(transaction.net_usage));
    row.set("cpuUsage", u64_to_string(transaction.cpu_usage_micro_seconds));
    row.set("block", clock.hash.clone());
    row.set("blockNumber", u64_to_string(clock.number));
    row.set("timestamp", i64_to_string(clock.seconds));
    proof {
        let md = ante_transaction_row(*clock, *transaction);
        assert(row@.key =~= md.key);
        assert(row@.columns =~= md.columns);
        assert(row@ == md);
    }
    push_row(tables, row);
    let ghost base = models(old(tables)@).push(ante_transaction_row(*clock, *transaction));
    let mut i: usize = 0;
    while i < transaction.action_traces.len()
        invariant
            i <= transaction.action_traces.len(),
            models(tables@) == base + ante_actions_rows(*transaction, i as int),
        decreases transaction.action_traces.len() - i,
    {
        insert_action(tables, &transaction.action_traces[i], transaction);
        proof {
            assert(models(tables@) =~= base + ante_actions_rows(*transaction, i as int + 1));
        }
        i = i + 1;
    }
    proof {
        assert(models(tables@) =~= models(old(tables)@) + ante_tx_rows(
            params@,
            *clock,
            *transaction,
        ));
    }
    true
}

/// The model of the block row.
pub open spec fn ante_block_row(c: BlockClock, b: AnteBlock) -> RowModel {
    RowModel {
        table: "Block"@,
        key: seq![("id"@, c.hash@)],
        columns: seq![
            ("previous"@, match b.header {
                Some(h) => h.previous@,
                None => Seq::<char>::empty(),
            }),
            ("producer"@, match b.header {
                Some(h) => h.producer@,
                None => Seq::<char>::empty(),
            }),
            ("date"@, date_of(c.timestamp@)),
            ("month"@, month_of(date_of(c.timestamp@))),
            ("year"@, year_of(date_of(c.timestamp@))),
            ("time"@, dec_of_int(c.seconds as int)),
            ("number"@, dec_of(c.number as nat)),
        ],
    }
}

/// All rows of the block's first `n` transaction traces, in order.
pub open spec fn ante_block_txs_rows(p: Seq<char>, c: BlockClock, b: AnteBlock, n: int) -> Seq<
    RowModel,
>
    decreases n,
{
    if n <= 0 {
        Seq::empty()
    } else {
        ante_block_txs_rows(p, c, b, n - 1) + ante_tx_rows(p, c, b.transaction_traces@[n - 1])
    }
}

/// At least one transaction trace of the block matches the filter.
pub open spec fn any_match(p: Seq<char>, b: AnteBlock) -> bool {
    exists|i: int|
        0 <= i < b.transaction_traces@.len() && matches_filter(p, b.transaction_traces@[i])
}

/// The full change set of one Antelope invocation: every matching
/// transaction trace's rows in trace order, then the block row — the latter
/// only when at least one trace matched.
pub open spec fn ante_block_rows(p: Seq<char>, c: BlockClock, b: AnteBlock) -> Seq<RowModel> {
    ante_block_txs_rows(p, c, b, b.transaction_traces@.len() as int) + if any_match(p, b) {
        seq![ante_block_row(c, b)]
    } else {
        Seq::empty()
    }
}

/// Appends every row of the block: the matching transactions' rows, then the
/// block row when any transaction matched.
pub fn insert_blocks(params: &str, tables: &mut Vec<Row>, clock: &BlockClock, block: &AnteBlock)
    ensures
        models(final(tables)@) == models(old(tables)@) + ante_block_rows(params@, *clock, *block),
{
    let ghost base = models(old(tables)@);
    let mut is_match = false;
    let mut i: usize = 0;
    while i < block.transaction_traces.len()
        invariant
            i <= block.transaction_traces.len(),
            base == models(old(tables)@),
            models(tables@) == base + ante_block_txs_rows(params@, *clock, *block, i as int),
            is_match == exists|k: int|
                0 <= k < i && matches_filter(params@, block.transaction_traces@[k]),
        decreases block.transaction_traces.len() - i,
    {
        let m = insert_transaction(params, tables, clock, &block.transaction_traces[i]);
        if m {
            is_match = true;
        }
        proof {
            assert(models(tables@) =~= base + ante_block_txs_rows(
                params@,
                *clock,
                *block,
                i as int + 1,
            ));
        }
        i = i + 1;
    }
    proof {
        assert(is_match == any_match(params@, *block));
    }
    if is_match {
        let date = block_time_to_date(clock.timestamp.as_str());
        let month = block_date_to_month(date.as_str());
        let year = block_date_to_year(date.as_str());
        let mut row = Row::new("Block");
        row.add_key("id", clock.hash.clone());
        match &block.header {
            Some(h) => {
                row.set("previous", h.previous.clone());
                row.set("producer", h.producer.clone());
            },
            None => {
                row.set("previous", String::new());
                row.set("producer", String::new());
            },
        }
        row.set("date", date);
        row.set("month", month);
        row.set("year", year);
        row.set("time", i64_to_string(clock.seconds));
        row.set("number", u64_to_string(clock.number));
        proof {
            let md = ante_block_row(*clock, *block);
            assert(row@.key =~= md.key);
            assert(row@.columns =~= md.columns);
            assert(row@ == md);
        }
        push_row(tables, row);
        proof {
            assert(models(tables@) =~= models(old(tables)@) + ante_block_rows(
                params@,
                *clock,
                *block,
            ));
        }
    } else {
        proof {
            assert(models(tables@) =~= models(old(tables)@) + ante_block_rows(
                params@,
                *clock,
                *block,
            ));
        }
    }
}

/// One Antelope invocation: a pure function from filter, block and clock to
/// the change set.
pub fn antelope_changes(params: &str, clock: &BlockClock, block: &AnteBlock) -> (rows: Vec<Row>)
    ensures
        models(rows@) == ante_block_rows(params@, *clock, *block),
{
    let mut rows: Vec<Row> = Vec::new();
    proof {
        assert(models(rows@) =~= Seq::<RowModel>::empty());
    }
    insert_blocks(params, &mut rows, clock, block);
    rows
}

/// Extraction is idempotent: two invocations on the same filter, block and
/// clock yield the same change set — same rows, same keys, same column
/// values, in the same order.
pub proof fn lemma_antelope_idempotent(
    p: Seq<char>,
    c: BlockClock,
    b: AnteBlock,
    r1: Seq<RowModel>,
    r2: Seq<RowModel>,
)
    requires
        r1 == ante_block_rows(p, c, b),
        r2 == ante_block_rows(p, c, b),
    ensures
        r1 == r2,
{
}

/// The transactions that match nothing leave nothing.
proof fn lemma_txs_rows_empty(p: Seq<char>, c: BlockClock, b: AnteBlock, n: int)
    requires
        forall|i: int| 0 <= i < n ==> !matches_filter(p, b.transaction_traces@[i]),
    ensures
        ante_block_txs_rows(p, c, b, n) == Seq::<RowModel>::empty(),
    decreases n,
{
    if n > 0 {
        lemma_txs_rows_empty(p, c, b, n - 1);
        assert(ante_block_txs_rows(p, c, b, n) =~= Seq::<RowModel>::empty());
    }
}

/// A block in which no transaction matches the filter yields no rows at all
/// — no block row and no transaction rows — though it was processed without
/// error.
pub proof fn lemma_no_match_no_rows(p: Seq<char>, c: BlockClock, b: AnteBlock)
    requires
        forall|i: int|
            0 <= i < b.transaction_traces@.len() ==> !matches_filter(
                p,
                b.transaction_traces@[i],
            ),
    ensures
        ante_block_rows(p, c, b) == Seq::<RowModel>::empty(),
{
    lemma_txs_rows_empty(p, c, b, b.transaction_traces@.len() as int);
    assert(!any_match(p, b));
    assert(ante_block_rows(p, c, b) =~= Seq::<RowModel>::empty());
}

} // verus!
