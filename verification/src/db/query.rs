//! Read queries.
use vstd::prelude::*;

use crate::text::{concat, join, seq_join, u64_to_string, decimal_string, views};

verus! {

/// The text of a `WHERE` condition on each of `columns`.
pub open spec fn conditions(columns: Seq<Seq<char>>) -> Seq<Seq<char>> {
    columns.map_values(|c: Seq<char>| c + " = ?"@)
}

/// `SELECT * FROM <table>`, with a `WHERE <col> = ? AND ...` clause when there
/// are columns.
pub open spec fn select_statement(columns: Seq<Seq<char>>, table: Seq<char>) -> Seq<char> {
    if columns.len() == 0 {
        "SELECT * FROM "@ + table
    } else {
        "SELECT * FROM "@ + table + " WHERE "@ + seq_join(conditions(columns), " AND "@)
    }
}

/// The column names of a query's WHERE clause: a query passes the names here
/// and the matching values as parameters, and the two are zipped into
/// `WHERE <col> = ? AND ...`.
pub struct ColumnNames(Vec<String>);

impl View for ColumnNames {
    type V = Seq<Seq<char>>;

    closed spec fn view(&self) -> Seq<Seq<char>> {
        views(self.0@)
    }
}

impl ColumnNames {
    /// No condition: the whole table.
    pub fn none() -> (r: ColumnNames)
        ensures
            r@ == Seq::<Seq<char>>::empty(),
    {
        let r = ColumnNames(Vec::new());
        assert(r@ =~= Seq::<Seq<char>>::empty());
        r
    }

    /// A condition on one column.
    pub fn one(column: &str) -> (r: ColumnNames)
        ensures
            r@ == seq![column@],
    {
        let mut v: Vec<String> = Vec::new();
        v.push(column.to_owned());
        let r = ColumnNames(v);
        assert(r@ =~= seq![column@]);
        r
    }

    /// A condition on each of `columns`, in order.
    pub fn many(columns: Vec<String>) -> (r: ColumnNames)
        ensures
            r@ == views(columns@),
    {
        ColumnNames(columns)
    }

    /// "SELECT * FROM <table>" with a WHERE clause for each named column.
    pub fn select_from(&self, table: &str) -> (r: String)
        ensures
            r@ == select_statement(self@, table@),
    {
        let head = concat("SELECT * FROM ", table);
        if self.0.len() == 0 {
            return head;
        }
        let mut conds: Vec<String> = Vec::new();
        let mut i: usize = 0;
        while i < self.0.len()
            invariant
                i <= self.0@.len(),
                views(conds@) == conditions(self@).take(i as int),
            decreases self.0@.len() - i,
        {
            let c = concat(self.0[i].as_str(), " = ?");
            let ghost before = views(conds@);
            conds.push(c);
            assert(views(conds@) =~= before.push(c@));
            assert(conditions(self@).take(i + 1) =~= conditions(self@).take(i as int).push(c@));
            i = i + 1;
        }
        assert(conditions(self@).take(self.0@.len() as int) =~= conditions(self@));
        let mut r = concat(head.as_str(), " WHERE ");
        let j = join(&conds, " AND ");
        r.append(j.as_str());
        r
    }
}

/// The lookup of one question's answers in the `consented_answers` view. Its
/// `lec`/`question_id` are key columns of the view, bound by literal values
/// in the query text rather than by parameters.
pub open spec fn consented_answers_statement(lec: u64, question_id: u64) -> Seq<char> {
    "SELECT * FROM consented_answers WHERE lec = "@ + decimal_string(lec as nat)
        + " AND question_id = "@ + decimal_string(question_id as nat)
}

pub fn consented_answers_query(lec: u64, question_id: u64) -> (r: String)
    ensures
        r@ == consented_answers_statement(lec, question_id),
{
    let mut r = String::new();
    r.append("SELECT * FROM consented_answers WHERE lec = ");
    r.append(u64_to_string(lec).as_str());
    r.append(" AND question_id = ");
    r.append(u64_to_string(question_id).as_str());
    r
}

} // verus!
