//! Derivation of the composite keys that identify emitted rows. Every key is
//! a deterministic function of upstream chain identifiers plus a local
//! ordinal; nothing is generated.

use vstd::prelude::*;
use vstd::string::StringExecFns;
use crate::clock::BlockClock;
use crate::numbers::{dec_of, u64_to_string};
use crate::rows::{kv_view, Row};

verus! {

/// The composite key of a transaction row: the block number it sits in and
/// its own hash, in that fixed order.
pub open spec fn transaction_key_model(c: BlockClock, hash: Seq<char>) -> Seq<
    (Seq<char>, Seq<char>),
> {
    seq![("block_num"@, dec_of(c.number as nat)), ("hash"@, hash)]
}

/// Sets the composite key of a transaction-scoped row: block number first,
/// transaction hash second.
pub fn transaction_keys(row: &mut Row, clock: &BlockClock, hash: &String)
    requires
        old(row)@.key == Seq::<(Seq<char>, Seq<char>)>::empty(),
    ensures
        final(row)@.table == old(row)@.table,
        final(row)@.columns == old(row)@.columns,
        final(row)@.key == transaction_key_model(*clock, hash@),
{
    row.add_key("block_num", u64_to_string(clock.number));
    row.add_key("hash", hash.clone());
    proof {
        assert(row@.key =~= transaction_key_model(*clock, hash@));
    }
}

/// The composite key of a child row under a transaction: block number,
/// transaction hash, then the child's own local index.
pub open spec fn child_key_model(c: BlockClock, tx_hash: Seq<char>, index: u64) -> Seq<
    (Seq<char>, Seq<char>),
> {
    seq![
        ("block_num"@, dec_of(c.number as nat)),
        ("tx_hash"@, tx_hash),
        ("index"@, dec_of(index as nat)),
    ]
}

/// Sets the composite key of a child row: block number, transaction hash,
/// local index.
pub fn child_keys(row: &mut Row, clock: &BlockClock, tx_hash: &String, index: u64)
    requires
        old(row)@.key == Seq::<(Seq<char>, Seq<char>)>::empty(),
    ensures
        final(row)@.table == old(row)@.table,
        final(row)@.columns == old(row)@.columns,
        final(row)@.key == child_key_model(*clock, tx_hash@, index),
{
    row.add_key("block_num", u64_to_string(clock.number));
    row.add_key("tx_hash", tx_hash.clone());
    row.add_key("index", u64_to_string(index));
    proof {
        assert(row@.key =~= child_key_model(*clock, tx_hash@, index));
    }
}

/// The string key of an action entity: the transaction id and the action's
/// ordinal, joined by a dash.
pub open spec fn action_key_model(tx_id: Seq<char>, ordinal: u64) -> Seq<char> {
    tx_id + seq!['-'] + dec_of(ordinal as nat)
}

/// Derives the key of an action entity from its transaction id and ordinal.
pub fn action_key(tx_id: &String, ordinal: u64) -> (r: String)
    ensures
        r@ == action_key_model(tx_id@, ordinal),
{
    let mut r = tx_id.clone();
    r.append("-");
    let o = u64_to_string(ordinal);
    r.append(o.as_str());
    proof {
        reveal_strlit("-");
        assert(r@ =~= action_key_model(tx_id@, ordinal));
    }
    r
}

} // verus!
