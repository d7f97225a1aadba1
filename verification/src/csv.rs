//! Rendering values as one field of a CSV file that is safe to open in a
//! spreadsheet.
use vstd::prelude::*;

use crate::text::{push_char, views};

verus! {

/// A character that a spreadsheet reads as the start of a formula.
pub open spec fn is_formula_start(c: char) -> bool {
    c == '=' || c == '+' || c == '-' || c == '@' || c == '\t' || c == '\r'
}

/// The text with an apostrophe in front when it would start a formula.
pub open spec fn guarded(s: Seq<char>) -> Seq<char> {
    if s.len() > 0 && is_formula_start(s[0]) {
        seq!['\''] + s
    } else {
        s
    }
}

/// The field's characters, each double quote written twice.
pub open spec fn doubled(s: Seq<char>) -> Seq<char>
    decreases s.len(),
{
    if s.len() == 0 {
        Seq::empty()
    } else {
        (if s[0] == '"' { seq!['"', '"'] } else { seq![s[0]] }) + doubled(s.drop_first())
    }
}

/// Reading a field's body back: each doubled quote stands for one.
pub open spec fn undoubled(t: Seq<char>) -> Seq<char>
    decreases t.len(),
{
    if t.len() >= 2 && t[0] == '"' && t[1] == '"' {
        seq!['"'] + undoubled(t.skip(2))
    } else if t.len() > 0 {
        seq![t[0]] + undoubled(t.drop_first())
    } else {
        Seq::empty()
    }
}

/// All the parts, one after the other.
pub open spec fn concat_all(parts: Seq<Seq<char>>) -> Seq<char>
    decreases parts.len(),
{
    if parts.len() == 0 {
        Seq::empty()
    } else {
        concat_all(parts.drop_last()) + parts.last()
    }
}

/// The CSV field of some values: concatenated, guarded against formulas, its
/// quotes doubled, in double quotes.
pub open spec fn csv_field_of(parts: Seq<Seq<char>>) -> Seq<char> {
    seq!['"'] + doubled(guarded(concat_all(parts))) + seq!['"']
}

proof fn lemma_doubled_append(a: Seq<char>, b: Seq<char>)
    ensures
        doubled(a + b) == doubled(a) + doubled(b),
    decreases a.len(),
{
    if a.len() > 0 {
        assert((a + b).drop_first() =~= a.drop_first() + b);
        lemma_doubled_append(a.drop_first(), b);
        assert((a + b)[0] == a[0]);
    } else {
        assert(a + b =~= b);
    }
}

/// Renders its arguments, concatenated, as one quoted CSV field: embedded
/// quotes are doubled, and a leading character that a spreadsheet would read
/// as the start of a formula is prefixed with an apostrophe, so that
/// user-supplied text cannot become a live formula.
pub fn csv(parts: &Vec<String>) -> (r: String)
    ensures
        r@ == csv_field_of(views(parts@)),
{
    let ghost pv = views(parts@);
    let mut field = String::new();
    let mut i: usize = 0;
    while i < parts.len()
        invariant
            i <= parts@.len(),
            pv == views(parts@),
            field@ == concat_all(pv.take(i as int)),
        decreases parts@.len() - i,
    {
        assert(pv.take(i + 1).drop_last() =~= pv.take(i as int));
        field.append(parts[i].as_str());
        i = i + 1;
    }
    assert(pv.take(parts@.len() as int) =~= pv);
    let n = field.as_str().unicode_len();
    let mut guarded_field = String::new();
    if n > 0 {
        let c = field.as_str().get_char(0);
        if c == '=' || c == '+' || c == '-' || c == '@' || c == '\t' || c == '\r' {
            push_char(&mut guarded_field, '\'');
        }
    }
    guarded_field.append(field.as_str());
    assert(guarded_field@ =~= guarded(field@));
    let g = guarded_field.as_str();
    let m = g.unicode_len();
    let mut out = String::new();
    push_char(&mut out, '"');
    let mut j: usize = 0;
    while j < m
        invariant
            m == g@.len(),
            j <= m,
            out@ == seq!['"'] + doubled(g@.take(j as int)),
        decreases m - j,
    {
        let c = g.get_char(j);
        proof {
            assert(g@.take(j + 1) =~= g@.take(j as int) + seq![c]);
            lemma_doubled_append(g@.take(j as int), seq![c]);
            assert(seq![c].drop_first() =~= Seq::<char>::empty());
            assert(doubled(Seq::<char>::empty()) =~= Seq::<char>::empty());
            assert(doubled(seq![c]) =~= (if c == '"' { seq!['"', '"'] } else { seq![c] }));
        }
        if c == '"' {
            push_char(&mut out, '"');
            push_char(&mut out, '"');
        } else {
            push_char(&mut out, c);
        }
        assert(out@ =~= seq!['"'] + doubled(g@.take(j + 1)));
        j = j + 1;
    }
    assert(g@.take(m as int) =~= g@);
    push_char(&mut out, '"');
    out
}

proof fn lemma_undoubled_doubled(s: Seq<char>)
    ensures
        undoubled(doubled(s)) == s,
    decreases s.len(),
{
    if s.len() > 0 {
        lemma_undoubled_doubled(s.drop_first());
        let rest = doubled(s.drop_first());
        if s[0] == '"' {
            let t = seq!['"', '"'] + rest;
            assert(t.skip(2) =~= rest);
        } else {
            let t = seq![s[0]] + rest;
            assert(t.drop_first() =~= rest);
        }
        assert(seq![s[0]] + s.drop_first() =~= s);
    }
}

/// A CSV field is quoted; reading its body back (each doubled quote as one)
/// gives exactly the guarded text; and its content never starts a formula.
pub proof fn lemma_csv_field_is_safe(parts: Seq<Seq<char>>)
    ensures
        ({
            let f = csv_field_of(parts);
            &&& f.len() >= 2
            &&& f[0] == '"' && f[f.len() - 1] == '"'
            &&& undoubled(f.subrange(1, f.len() - 1)) == guarded(concat_all(parts))
            &&& f.len() > 2 ==> !is_formula_start(f[1])
        }),
{
    let g = guarded(concat_all(parts));
    let f = csv_field_of(parts);
    assert(f.subrange(1, f.len() - 1) =~= doubled(g));
    lemma_undoubled_doubled(g);
    if f.len() > 2 {
        assert(g.len() > 0);
        assert(f[1] == doubled(g)[0]);
    }
}

} // verus!
