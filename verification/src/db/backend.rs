//! Connecting to the database and creating its schema.
use vstd::prelude::*;

use crate::text::{
    ends_with, is_prefix, is_suffix, split, split_char, starts_with, trim, trimmed, views,
};

verus! {

/// The address of the database server for a user, with no database selected.
pub open spec fn server_url(user: Seq<char>, password: Seq<char>, addr: Seq<char>) -> Seq<char> {
    "mysql://"@ + user + ":"@ + password + "@"@ + addr + "/"@
}

pub fn connection_url(user: &str, password: &str, addr: &str) -> (r: String)
    ensures
        r@ == server_url(user@, password@, addr@),
{
    let mut r = String::new();
    r.append("mysql://");
    r.append(user);
    r.append(":");
    r.append(password);
    r.append("@");
    r.append(addr);
    r.append("/");
    r
}

/// The address used to reconnect: the server address with the database name.
pub fn reconnect_url(user: &str, password: &str, addr: &str, db_name: &str) -> (r: String)
    ensures
        r@ == server_url(user@, password@, addr@) + db_name@,
{
    let mut r = connection_url(user, password, addr);
    r.append(db_name);
    r
}

/// The schema reader's state after some lines: the statement being gathered,
/// and the complete statements so far.
pub open spec fn schema_step(acc: (Seq<char>, Seq<Seq<char>>), line: Seq<char>) -> (Seq<char>, Seq<Seq<char>>) {
    let t = trimmed(line);
    if is_prefix("--"@, t) || t.len() == 0 {
        acc
    } else {
        let cmd = acc.0 + t + " "@;
        if is_suffix(";"@, t) {
            (Seq::empty(), acc.1.push(cmd))
        } else {
            (cmd, acc.1)
        }
    }
}

pub open spec fn schema_fold(lines: Seq<Seq<char>>) -> (Seq<char>, Seq<Seq<char>>)
    decreases lines.len(),
{
    if lines.len() == 0 {
        (Seq::empty(), Seq::empty())
    } else {
        schema_step(schema_fold(lines.drop_last()), lines.last())
    }
}

/// The statements of a schema script: lines are trimmed, comment (`--`) and
/// blank lines skipped, and the rest gathered, each followed by a space, until
/// a line that ends with `;` completes a statement. Text after the last `;` is
/// not a statement.
pub open spec fn schema_statements_of(schema: Seq<char>) -> Seq<Seq<char>> {
    schema_fold(split_char(schema, '\n')).1
}

/// Splits a schema script into the statements to run, in order. Statements
/// may span several lines.
pub fn schema_statements(schema: &str) -> (r: Vec<String>)
    ensures
        views(r@) == schema_statements_of(schema@),
{
    let lines = split(schema, '\n');
    let ghost lv = views(lines@);
    let mut out: Vec<String> = Vec::new();
    let mut cmd = String::new();
    let mut i: usize = 0;
    while i < lines.len()
        invariant
            i <= lines@.len(),
            lv == views(lines@),
            (cmd@, views(out@)) == schema_fold(lv.take(i as int)),
        decreases lines@.len() - i,
    {
        assert(lv.take(i + 1).drop_last() =~= lv.take(i as int));
        let line = trim(lines[i].as_str());
        if starts_with(line.as_str(), "--") || line.as_str().is_empty() {
        } else {
            cmd.append(line.as_str());
            cmd.append(" ");
            if ends_with(line.as_str(), ";") {
                let ghost before = views(out@);
                out.push(cmd);
                assert(views(out@) =~= before.push(cmd@));
                cmd = String::new();
            }
        }
        i = i + 1;
    }
    assert(lv.take(lines@.len() as int) =~= lv);
    out
}

} // verus!
