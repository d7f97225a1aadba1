//! Column values of database rows, and how they convert to the types the
//! application reads them as.
use vstd::prelude::*;

use crate::config::opt_string_view;

verus! {

/// A column value as the database returns it.
#[derive(Clone, Debug)]
pub enum SqlValue {
    Null,
    /// Text (or any byte string that is valid UTF-8).
    Bytes(String),
    Int(i64),
    UInt(u64),
}

pub enum SqlValueView {
    Null,
    Bytes(Seq<char>),
    Int(i64),
    UInt(u64),
}

impl View for SqlValue {
    type V = SqlValueView;

    open spec fn view(&self) -> SqlValueView {
        match self {
            SqlValue::Null => SqlValueView::Null,
            SqlValue::Bytes(s) => SqlValueView::Bytes(s@),
            SqlValue::Int(i) => SqlValueView::Int(*i),
            SqlValue::UInt(u) => SqlValueView::UInt(*u),
        }
    }
}

/// Reading a value as an optional string: `Some(None)` for NULL,
/// `Some(Some(text))` for text, and `None` when the value is not text (the
/// conversion fails).
pub open spec fn sql_opt_text(v: SqlValueView) -> Option<Option<Seq<char>>> {
    match v {
        SqlValueView::Null => Some(None),
        SqlValueView::Bytes(s) => Some(Some(s)),
        _ => None,
    }
}

pub open spec fn is_digit(c: char) -> bool {
    '0' <= c <= '9'
}

pub open spec fn digit_value(c: char) -> int {
    (c as int) - ('0' as int)
}

/// The number that a string of decimal digits spells.
pub open spec fn decimal_value(d: Seq<char>) -> int
    decreases d.len(),
{
    if d.len() == 0 {
        0
    } else {
        decimal_value(d.drop_last()) * 10 + digit_value(d.last())
    }
}

/// Unsigned parse of a digit string: at least one digit, all digits, and the
/// value fits.
pub open spec fn unsigned_digits(d: Seq<char>) -> Option<u64> {
    if d.len() > 0 && (forall|i: int| 0 <= i < d.len() ==> is_digit(#[trigger] d[i]))
        && decimal_value(d) <= u64::MAX {
        Some(decimal_value(d) as u64)
    } else {
        None
    }
}

/// Reading a text value as an unsigned integer: an optional `+` and digits,
/// or `-` followed by zeros only (any other digit after `-` underflows).
pub open spec fn text_to_u64(s: Seq<char>) -> Option<u64> {
    if s.len() == 0 {
        None
    } else if s[0] == '+' {
        unsigned_digits(s.drop_first())
    } else if s[0] == '-' {
        if s.len() > 1 && forall|i: int| 1 <= i < s.len() ==> #[trigger] s[i] == '0' {
            Some(0)
        } else {
            None
        }
    } else {
        unsigned_digits(s)
    }
}

/// Reading a value as an optional unsigned integer.
pub open spec fn sql_opt_u64(v: SqlValueView) -> Option<Option<u64>> {
    match v {
        SqlValueView::Null => Some(None),
        SqlValueView::Int(i) => if i >= 0 {
            Some(Some(i as u64))
        } else {
            None
        },
        SqlValueView::UInt(u) => Some(Some(u)),
        SqlValueView::Bytes(s) => match text_to_u64(s) {
            Some(u) => Some(Some(u)),
            None => None,
        },
    }
}

/// Reading a value as a boolean: 0 is false, any other integer true, and the
/// texts "0" and "1".
pub open spec fn sql_bool(v: SqlValueView) -> Option<bool> {
    match v {
        SqlValueView::Int(i) => Some(i != 0),
        SqlValueView::UInt(u) => Some(u != 0),
        SqlValueView::Bytes(s) => if s == seq!['0'] {
            Some(false)
        } else if s == seq!['1'] {
            Some(true)
        } else {
            None
        },
        SqlValueView::Null => None,
    }
}

pub open spec fn opt_opt_text_view(r: Option<Option<String>>) -> Option<Option<Seq<char>>> {
    match r {
        Some(o) => Some(opt_string_view(o)),
        None => None,
    }
}

/// `mysql::from_value_opt::<Option<String>>` on the value: NULL reads as
/// `None`, bytes that are valid UTF-8 (ours always are) as their text, and
/// any number fails. A failure is `None` here.
#[verifier::external_body]
fn from_value_text(v: &SqlValue) -> (r: Option<Option<String>>)
    ensures
        opt_opt_text_view(r) == sql_opt_text(v@),
{
    mysql::from_value_opt::<Option<String>>(match v {
        SqlValue::Null => mysql::Value::NULL,
        SqlValue::Bytes(s) => mysql::Value::Bytes(s.clone().into_bytes()),
        SqlValue::Int(i) => mysql::Value::Int(*i),
        SqlValue::UInt(u) => mysql::Value::UInt(*u),
    }).ok()
}

/// `mysql::from_value_opt::<Option<u64>>` on the value: NULL reads as `None`,
/// an integer as itself when it fits in a `u64`, and text by `btoi` (an
/// optional sign, then decimal digits, with overflow an error). A failure is
/// `None` here.
#[verifier::external_body]
fn from_value_u64(v: &SqlValue) -> (r: Option<Option<u64>>)
    ensures
        r == sql_opt_u64(v@),
{
    mysql::from_value_opt::<Option<u64>>(match v {
        SqlValue::Null => mysql::Value::NULL,
        SqlValue::Bytes(s) => mysql::Value::Bytes(s.clone().into_bytes()),
        SqlValue::Int(i) => mysql::Value::Int(*i),
        SqlValue::UInt(u) => mysql::Value::UInt(*u),
    }).ok()
}

/// `mysql::from_value_opt::<bool>` on the value: 0 is false and any other
/// integer true; the one-byte texts `0` and `1`; anything else (NULL too)
/// fails. A failure is `None` here.
#[verifier::external_body]
fn from_value_bool(v: &SqlValue) -> (r: Option<bool>)
    ensures
        r == sql_bool(v@),
{
    mysql::from_value_opt::<bool>(match v {
        SqlValue::Null => mysql::Value::NULL,
        SqlValue::Bytes(s) => mysql::Value::Bytes(s.clone().into_bytes()),
        SqlValue::Int(i) => mysql::Value::Int(*i),
        SqlValue::UInt(u) => mysql::Value::UInt(*u),
    }).ok()
}

/// The optional string in a value that reads as one.
pub fn sql_opt_text_of(v: &SqlValue) -> (r: Option<String>)
    requires
        sql_opt_text(v@) is Some,
    ensures
        opt_string_view(r) == sql_opt_text(v@)->0,
{
    match from_value_text(v) {
        Some(o) => o,
        None => None,
    }
}

/// The optional unsigned integer in a value that reads as one.
pub fn sql_opt_u64_of(v: &SqlValue) -> (r: Option<u64>)
    requires
        sql_opt_u64(v@) is Some,
    ensures
        r == sql_opt_u64(v@)->0,
{
    match from_value_u64(v) {
        Some(o) => o,
        None => None,
    }
}

/// The unsigned integer in a value that reads as one.
pub fn sql_u64_of(v: &SqlValue) -> (r: u64)
    requires
        sql_opt_u64(v@) matches Some(Some(_)),
    ensures
        Some(r) == sql_opt_u64(v@)->0,
{
    match from_value_u64(v) {
        Some(Some(u)) => u,
        _ => 0,
    }
}

/// The boolean in a value that reads as one.
pub fn sql_bool_of(v: &SqlValue) -> (r: bool)
    requires
        sql_bool(v@) is Some,
    ensures
        Some(r) == sql_bool(v@),
{
    match from_value_bool(v) {
        Some(b) => b,
        None => false,
    }
}

/// The value in column `i` of a row, if the row has that many columns.
pub open spec fn cell(row: Seq<SqlValue>, i: int) -> Option<SqlValueView> {
    if 0 <= i < row.len() {
        Some(row[i]@)
    } else {
        None
    }
}

/// Column `i` read as text (NULL does not read as text).
pub open spec fn text_at(row: Seq<SqlValue>, i: int) -> Option<Seq<char>> {
    match cell(row, i) {
        Some(v) => match sql_opt_text(v) {
            Some(Some(t)) => Some(t),
            _ => None,
        },
        None => None,
    }
}

/// Column `i` read as optional text.
pub open spec fn opt_text_at(row: Seq<SqlValue>, i: int) -> Option<Option<Seq<char>>> {
    match cell(row, i) {
        Some(v) => sql_opt_text(v),
        None => None,
    }
}

/// Column `i` read as an unsigned integer (NULL does not read as one).
pub open spec fn u64_at(row: Seq<SqlValue>, i: int) -> Option<u64> {
    match cell(row, i) {
        Some(v) => match sql_opt_u64(v) {
            Some(Some(u)) => Some(u),
            _ => None,
        },
        None => None,
    }
}

/// Column `i` read as an optional unsigned integer.
pub open spec fn opt_u64_at(row: Seq<SqlValue>, i: int) -> Option<Option<u64>> {
    match cell(row, i) {
        Some(v) => sql_opt_u64(v),
        None => None,
    }
}

/// Column `i` read as a boolean.
pub open spec fn bool_at(row: Seq<SqlValue>, i: int) -> Option<bool> {
    match cell(row, i) {
        Some(v) => sql_bool(v),
        None => None,
    }
}

pub fn read_text(row: &Vec<SqlValue>, i: usize) -> (r: Option<String>)
    ensures
        opt_string_view(r) == text_at(row@, i as int),
{
    if i < row.len() {
        match from_value_text(&row[i]) {
            Some(Some(t)) => Some(t),
            _ => None,
        }
    } else {
        None
    }
}

pub fn read_opt_text(row: &Vec<SqlValue>, i: usize) -> (r: Option<Option<String>>)
    ensures
        opt_opt_text_view(r) == opt_text_at(row@, i as int),
{
    if i < row.len() {
        from_value_text(&row[i])
    } else {
        None
    }
}

pub fn read_u64(row: &Vec<SqlValue>, i: usize) -> (r: Option<u64>)
    ensures
        r == u64_at(row@, i as int),
{
    if i < row.len() {
        match from_value_u64(&row[i]) {
            Some(Some(u)) => Some(u),
            _ => None,
        }
    } else {
        None
    }
}

pub fn read_opt_u64(row: &Vec<SqlValue>, i: usize) -> (r: Option<Option<u64>>)
    ensures
        r == opt_u64_at(row@, i as int),
{
    if i < row.len() {
        from_value_u64(&row[i])
    } else {
        None
    }
}

pub fn read_bool(row: &Vec<SqlValue>, i: usize) -> (r: Option<bool>)
    ensures
        r == bool_at(row@, i as int),
{
    if i < row.len() {
        from_value_bool(&row[i])
    } else {
        None
    }
}

} // verus!
