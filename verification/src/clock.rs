//! The per-invocation clock context: block number, block hash and wall-clock
//! timestamp, plus the shared helper that stamps every row with the fields
//! derived from it.

use vstd::prelude::*;
use crate::dates::{block_date_to_month, block_date_to_year, block_time_to_date, date_of, month_of,
    year_of};
use crate::numbers::{dec_of, dec_of_int, i64_to_string, u64_to_string};
use crate::rows::Row;

verus! {

/// The clock context handed in with each block: the block's number and hash,
/// and its timestamp both as epoch seconds and in text form
/// (`YYYY-MM-DDTHH:MM:SS...`).
#[derive(Debug, Clone, PartialEq, Eq)]
pub struct BlockClock {
    pub number: u64,
    pub hash: String,
    pub seconds: i64,
    pub timestamp: String,
}

/// The columns that stamp a row with its block context: the calendar fields
/// derived from the timestamp, and, on rows that are not themselves the
/// block, the number and hash of the block they belong to (a block row
/// carries its own number; its hash is already its key).
pub open spec fn timestamp_columns(c: BlockClock, is_block: bool) -> Seq<(Seq<char>, Seq<char>)> {
    let date = date_of(c.timestamp@);
    let base = seq![
        ("timestamp"@, dec_of_int(c.seconds as int)),
        ("date"@, date),
        ("month"@, month_of(date)),
        ("year"@, year_of(date)),
    ];
    if is_block {
        base.push(("number"@, dec_of(c.number as nat)))
    } else {
        base + seq![("block_num"@, dec_of(c.number as nat)), ("block_hash"@, c.hash@)]
    }
}

/// Appends the block-context columns to a row.
pub fn insert_timestamp(row: &mut Row, clock: &BlockClock, is_block: bool)
    ensures
        final(row)@.table == old(row)@.table,
        final(row)@.key == old(row)@.key,
        final(row)@.columns == old(row)@.columns + timestamp_columns(*clock, is_block),
{
    let date = block_time_to_date(clock.timestamp.as_str());
    let month = block_date_to_month(date.as_str());
    let year = block_date_to_year(date.as_str());
    row.set("timestamp", i64_to_string(clock.seconds));
    row.set("date", date);
    row.set("month", month);
    row.set("year", year);
    if is_block {
        row.set("number", u64_to_string(clock.number));
    } else {
        row.set("block_num", u64_to_string(clock.number));
        row.set("block_hash", clock.hash.clone());
    }
    proof {
        assert(row@.columns =~= old(row)@.columns + timestamp_columns(*clock, is_block));
    }
}

} // verus!
