//! The change set that one invocation produces: an ordered list of
//! row-create operations, each carrying a table name, a composite key of
//! named components, and string-valued columns.

use vstd::prelude::*;
use vstd::string::StringExecFns;

verus! {

/// One row-create operation.
#[derive(Debug, Clone, PartialEq, Eq)]
pub struct Row {
    /// Name of the table the row goes to.
    pub table: String,
    /// Composite key: named components in a fixed conventional order.
    pub key: Vec<(String, String)>,
    /// Column values, in insertion order; every value is a string.
    pub columns: Vec<(String, String)>,
}

/// The mathematical shape of one row.
pub ghost struct RowModel {
    pub table: Seq<char>,
    pub key: Seq<(Seq<char>, Seq<char>)>,
    pub columns: Seq<(Seq<char>, Seq<char>)>,
}

/// View of a name/value pair list as sequences of characters.
pub open spec fn kv_view(v: Seq<(String, String)>) -> Seq<(Seq<char>, Seq<char>)> {
    v.map_values(|p: (String, String)| (p.0@, p.1@))
}

impl View for Row {
    type V = RowModel;

    open spec fn view(&self) -> RowModel {
        RowModel { table: self.table@, key: kv_view(self.key@), columns: kv_view(self.columns@) }
    }
}

/// The models of a list of rows, in order.
pub open spec fn models(rows: Seq<Row>) -> Seq<RowModel> {
    rows.map_values(|r: Row| r@)
}

/// The fatal conditions of an invocation: a required sub-record is absent.
/// Every other irregularity degrades to a documented default instead.
#[derive(Debug, Clone, Copy, PartialEq, Eq, Structural)]
pub enum ExtractError {
    /// A transaction trace carries no receipt.
    MissingReceipt,
    /// The block carries no header while one of its rows needs it.
    MissingHeader,
}

impl Row {
    /// A fresh row for the given table, with no key components and no
    /// columns yet.
    pub fn new(table: &str) -> (r: Row)
        ensures
            r@.table == table@,
            r@.key == Seq::<(Seq<char>, Seq<char>)>::empty(),
            r@.columns == Seq::<(Seq<char>, Seq<char>)>::empty(),
    {
        let r = Row { table: String::from_str(table), key: Vec::new(), columns: Vec::new() };
        proof {
            assert(r@.key =~= Seq::<(Seq<char>, Seq<char>)>::empty());
            assert(r@.columns =~= Seq::<(Seq<char>, Seq<char>)>::empty());
        }
        r
    }

    /// Appends one named component to the composite key.
    pub fn add_key(&mut self, name: &str, value: String)
        ensures
            final(self)@.table == old(self)@.table,
            final(self)@.columns == old(self)@.columns,
            final(self)@.key == old(self)@.key.push((name@, value@)),
    {
        let ghost prev = self.key@;
        self.key.push((String::from_str(name), value));
        proof {
            assert(kv_view(self.key@) =~= kv_view(prev).push((name@, value@)));
        }
    }

    /// Appends one column value.
    pub fn set(&mut self, name: &str, value: String)
        ensures
            final(self)@.table == old(self)@.table,
            final(self)@.key == old(self)@.key,
            final(self)@.columns == old(self)@.columns.push((name@, value@)),
    {
        let ghost prev = self.columns@;
        self.columns.push((String::from_str(name), value));
        proof {
            assert(kv_view(self.columns@) =~= kv_view(prev).push((name@, value@)));
        }
    }
}

/// Appends one finished row to the change set.
pub fn push_row(tables: &mut Vec<Row>, row: Row)
    ensures
        models(final(tables)@) == models(old(tables)@).push(row@),
{
    let ghost prev = tables@;
    tables.push(row);
    proof {
        assert(models(tables@) =~= models(prev).push(tables@.last()@));
    }
}

} // verus!
