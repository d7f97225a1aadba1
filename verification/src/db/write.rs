//! Statements that change rows.
use vstd::prelude::*;

use crate::text::{join, seq_join, views};

verus! {

/// `n` placeholders separated by commas.
pub open spec fn placeholders(n: nat) -> Seq<char> {
    seq_join(Seq::new(n, |i: int| "?"@), ","@)
}

/// `INSERT` (or `REPLACE`) `INTO <table> VALUES (?,...,?)` with one placeholder
/// per value. `table` may carry an explicit column list, e.g.
/// `presenters(lecture_id, email)`.
pub open spec fn insert_statement(table: Seq<char>, param_count: nat, replace: bool) -> Seq<char> {
    (if replace { "REPLACE"@ } else { "INSERT"@ }) + " INTO "@ + table + " VALUES ("@ + placeholders(
        param_count,
    ) + ")"@
}

/// The statement that inserts (or replaces) a row of `param_count` values into
/// `table`.
pub fn insert_query(table: &str, param_count: usize, replace: bool) -> (r: String)
    ensures
        r@ == insert_statement(table@, param_count as nat, replace),
{
    let mut marks: Vec<String> = Vec::new();
    let mut i: usize = 0;
    while i < param_count
        invariant
            i <= param_count,
            views(marks@) == Seq::new(i as nat, |k: int| "?"@),
        decreases param_count - i,
    {
        let ghost before = views(marks@);
        let q = "?".to_owned();
        let ghost qv = q@;
        marks.push(q);
        assert(views(marks@) =~= before.push(qv));
        assert(views(marks@) =~= Seq::new((i + 1) as nat, |k: int| "?"@));
        i = i + 1;
    }
    let mut r = String::new();
    if replace {
        r.append("REPLACE");
    } else {
        r.append("INSERT");
    }
    r.append(" INTO ");
    r.append(table);
    r.append(" VALUES (");
    r.append(join(&marks, ",").as_str());
    r.append(")");
    r
}

} // verus!
