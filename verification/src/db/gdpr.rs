//! The `GDPR GET` statement: every row of every table that belongs to a user.
use vstd::prelude::*;

use crate::text::str_eq;

verus! {

/// `s` with each `'` doubled.
pub open spec fn quote_doubled(s: Seq<char>) -> Seq<char>
    decreases s.len(),
{
    if s.len() == 0 {
        Seq::empty()
    } else {
        quote_doubled(s.drop_last()) + if s.last() == '\'' {
            seq!['\'', '\'']
        } else {
            seq![s.last()]
        }
    }
}

/// A text value written as an SQL string literal for a server that does not
/// treat backslash as an escape: in single quotes, with each quote doubled.
pub open spec fn sql_string_literal(s: Seq<char>) -> Seq<char> {
    seq!['\''] + quote_doubled(s) + seq!['\'']
}

/// `mysql::Value::from(s).as_sql(true)`: a text value becomes `Value::Bytes`,
/// and `as_sql` with backslash escapes off writes valid UTF-8 bytes in single
/// quotes with each quote doubled (mysql_common's `escaped`).
#[verifier::external_body]
fn value_as_sql(s: &str) -> (r: String)
    ensures
        r@ == sql_string_literal(s@),
{
    mysql::Value::from(s).as_sql(true)
}

/// The statement that fetches everything stored about `email`. The store
/// rejects `GDPR GET` as a prepared statement, so the email is embedded as an
/// escaped literal.
pub fn gdpr_get_query(email: &str) -> (r: String)
    ensures
        r@ == "GDPR GET users "@ + sql_string_literal(email@),
{
    let mut r = String::new();
    r.append("GDPR GET users ");
    r.append(value_as_sql(email).as_str());
    r
}

/// The tables whose rows `GDPR GET` may return.
#[derive(Debug, Clone, Copy, PartialEq, Eq)]
pub enum GdprTable {
    Users,
    Answers,
    Presenters,
}

/// Which table a result set of `GDPR GET` comes from, by the table name its
/// columns report; `None` for a table the application does not expect.
pub fn gdpr_table(name: &str) -> (r: Option<GdprTable>)
    ensures
        r == (if name@ == "users"@ {
            Some(GdprTable::Users)
        } else if name@ == "answers"@ {
            Some(GdprTable::Answers)
        } else if name@ == "presenters"@ {
            Some(GdprTable::Presenters)
        } else {
            None
        }),
{
    if str_eq(name, "users") {
        Some(GdprTable::Users)
    } else if str_eq(name, "answers") {
        Some(GdprTable::Answers)
    } else if str_eq(name, "presenters") {
        Some(GdprTable::Presenters)
    } else {
        None
    }
}

} // verus!
