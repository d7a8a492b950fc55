//! Quoting of SQL string literals and identifiers.
use vstd::prelude::*;
use crate::text::{chars_of, text_from};

verus! {

/// What one character becomes when every `q` is doubled.
pub open spec fn doubled_piece(c: char, q: char) -> Seq<char> {
    if c == q {
        seq![q, q]
    } else {
        seq![c]
    }
}

/// `s` with every occurrence of `q` written twice (`str::replace(q, qq)`).
pub open spec fn double_char(s: Seq<char>, q: char) -> Seq<char>
    decreases s.len(),
{
    if s.len() == 0 {
        seq![]
    } else {
        doubled_piece(s[0], q) + double_char(s.drop_first(), q)
    }
}

/// Reading back a text in which `q` was doubled: each pair `qq` stands for one `q`.
pub open spec fn undouble_char(t: Seq<char>, q: char) -> Seq<char>
    decreases t.len(),
{
    if t.len() == 0 {
        seq![]
    } else if t.len() >= 2 && t[0] == q && t[1] == q {
        seq![q] + undouble_char(t.skip(2), q)
    } else {
        seq![t[0]] + undouble_char(t.drop_first(), q)
    }
}

/// Whether every `q` in `t` stands in a pair, so that `t` can sit between two `q`s.
pub open spec fn quotes_paired(t: Seq<char>, q: char) -> bool
    decreases t.len(),
{
    if t.len() == 0 {
        true
    } else if t[0] == q {
        t.len() >= 2 && t[1] == q && quotes_paired(t.skip(2), q)
    } else {
        quotes_paired(t.drop_first(), q)
    }
}

/// A DuckDB string literal body: every single quote doubled.
pub open spec fn escape_sql_spec(s: Seq<char>) -> Seq<char> {
    double_char(s, '\'')
}

/// A DuckDB quoted identifier: double quotes doubled, the whole wrapped in double quotes.
pub open spec fn column_safe_spec(s: Seq<char>) -> Seq<char> {
    seq!['"'] + double_char(s, '"') + seq!['"']
}

pub proof fn lemma_double_char_concat(a: Seq<char>, b: Seq<char>, q: char)
    ensures
        double_char(a + b, q) == double_char(a, q) + double_char(b, q),
    decreases a.len(),
{
    if a.len() == 0 {
        assert(a + b =~= b);
        assert(double_char(a, q) =~= seq![]);
        assert(double_char(a, q) + double_char(b, q) =~= double_char(b, q));
    } else {
        assert((a + b).drop_first() =~= a.drop_first() + b);
        lemma_double_char_concat(a.drop_first(), b, q);
        assert(double_char(a + b, q) =~= doubled_piece(a[0], q) + (double_char(a.drop_first(), q)
            + double_char(b, q)));
    }
}

pub proof fn lemma_double_char_single(c: char, q: char)
    ensures
        double_char(seq![c], q) == doubled_piece(c, q),
{
    assert(seq![c].drop_first() =~= Seq::<char>::empty());
    assert(double_char(Seq::<char>::empty(), q) =~= Seq::<char>::empty());
    assert(doubled_piece(c, q) + Seq::<char>::empty() =~= doubled_piece(c, q));
}

/// Reading back a doubled text gives the text before doubling.
pub proof fn lemma_undouble_double(s: Seq<char>, q: char)
    ensures
        undouble_char(double_char(s, q), q) == s,
        quotes_paired(double_char(s, q), q),
    decreases s.len(),
{
    if s.len() == 0 {
        assert(double_char(s, q) =~= Seq::<char>::empty());
    } else {
        let t = double_char(s, q);
        let rest = double_char(s.drop_first(), q);
        lemma_undouble_double(s.drop_first(), q);
        if s[0] == q {
            assert(t =~= seq![q, q] + rest);
            assert(t.skip(2) =~= rest);
            assert(undouble_char(t, q) =~= seq![q] + s.drop_first());
        } else {
            assert(t =~= seq![s[0]] + rest);
            assert(t.drop_first() =~= rest);
            assert(undouble_char(t, q) =~= seq![s[0]] + s.drop_first());
        }
        assert(s =~= seq![s[0]] + s.drop_first());
    }
}

/// Appends `s[lo..]` to `out` with every `q` doubled.
fn push_doubled(out: &mut Vec<char>, s: &Vec<char>, q: char)
    ensures
        final(out)@ == old(out)@ + double_char(s@, q),
{
    let ghost start = out@;
    let mut i: usize = 0;
    while i < s.len()
        invariant
            i <= s@.len(),
            out@ == start + double_char(s@.subrange(0, i as int), q),
        decreases s@.len() - i,
    {
        let c = s[i];
        if c == q {
            out.push(q);
            out.push(q);
        } else {
            out.push(c);
        }
        proof {
            lemma_double_char_concat(s@.subrange(0, i as int), seq![c], q);
            lemma_double_char_single(c, q);
            assert(s@.subrange(0, i + 1) =~= s@.subrange(0, i as int) + seq![c]);
            assert(out@ =~= start + double_char(s@.subrange(0, i + 1), q));
        }
        i = i + 1;
    }
    assert(s@.subrange(0, s@.len() as int) =~= s@);
}

/// Escape single quotes in a string for safe use inside a DuckDB single-quoted string literal.
pub fn escape_sql_string(s: &str) -> (r: String)
    ensures
        r@ == escape_sql_spec(s@),
{
    let v = chars_of(s);
    let mut out: Vec<char> = Vec::new();
    push_doubled(&mut out, &v, '\'');
    assert(out@ =~= escape_sql_spec(s@));
    text_from(out.as_slice())
}

/// Escape a column name for safe use in DuckDB SQL by wrapping in double quotes.
pub fn make_column_safe(column_name: &str) -> (r: String)
    ensures
        r@ == column_safe_spec(column_name@),
{
    let v = chars_of(column_name);
    let mut out: Vec<char> = Vec::new();
    out.push('"');
    push_doubled(&mut out, &v, '"');
    out.push('"');
    assert(out@ =~= column_safe_spec(column_name@));
    text_from(out.as_slice())
}

/// Law: the body of an escaped string literal reads back as the text that was escaped, and has
/// no lone single quote that could end the literal early.
pub proof fn law_escape_sql_string_reads_back(s: Seq<char>)
    ensures
        undouble_char(escape_sql_spec(s), '\'') == s,
        quotes_paired(escape_sql_spec(s), '\''),
{
    lemma_undouble_double(s, '\'');
}

/// Law: a quoted identifier is wrapped in double quotes, and what stands between them
/// reads back as the column name with no lone double quote.
pub proof fn law_column_safe_reads_back(s: Seq<char>)
    ensures
        column_safe_spec(s).len() >= 2,
        column_safe_spec(s)[0] == '"',
        column_safe_spec(s).last() == '"',
        undouble_char(column_safe_spec(s).subrange(1, column_safe_spec(s).len() - 1), '"') == s,
        quotes_paired(column_safe_spec(s).subrange(1, column_safe_spec(s).len() - 1), '"'),
{
    let t = column_safe_spec(s);
    assert(t.subrange(1, t.len() - 1) =~= double_char(s, '"'));
    lemma_undouble_double(s, '"');
}

} // verus!
