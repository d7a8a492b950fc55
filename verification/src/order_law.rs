//! The ORDER BY rewrite of a query, replaced and removed: where the keywords can be found
//! in a query and in the texts that the rewrite puts around it.
use crate::app::{order_by_spec, split_limit_spec, strip_order_by_spec};
use crate::engine::sql_utils::{column_safe_spec, double_char};
use crate::engine::{direction_sql, sql_core, SortDirection};
use crate::text::{
    ascii_upper, char_pred, is_last_occurrence, is_ws, last_occurrence, lemma_trim_end_at,
    lemma_trim_start_at, occurs_at, trim, upper_char, ws_pred,
};
use vstd::prelude::*;

verus! {

/// Whether `w` occurs nowhere in the ASCII upper case of `s`.
pub open spec fn no_word(s: Seq<char>, w: Seq<char>) -> bool {
    forall|k: int| !occurs_at(ascii_upper(s), w, k)
}

/// Whether a character, upper-cased, is none of the characters of `w`.
pub open spec fn apart_from(c: char, w: Seq<char>) -> bool {
    forall|i: int| 0 <= i < w.len() ==> w[i] != upper_char(c)
}

pub proof fn lemma_upper_concat(a: Seq<char>, b: Seq<char>)
    ensures
        ascii_upper(a + b) == ascii_upper(a) + ascii_upper(b),
{
    assert(ascii_upper(a + b) =~= ascii_upper(a) + ascii_upper(b));
}

/// An occurrence fixes each character under it.
pub proof fn lemma_occurs_char(u: Seq<char>, w: Seq<char>, k: int, i: int)
    requires
        occurs_at(u, w, k),
        0 <= i < w.len(),
    ensures
        u[k + i] == w[i],
{
    assert(u.subrange(k, k + w.len())[i] == u[k + i]);
}

/// An occurrence in `a + p + b`, where the first and last characters of `p` are apart from
/// the word, lies in `a`, in `p` or in `b`.
pub proof fn lemma_occurs_split(a: Seq<char>, p: Seq<char>, b: Seq<char>, w: Seq<char>, k: int)
    requires
        p.len() >= 1,
        apart_from(p[0], w),
        apart_from(p.last(), w),
        occurs_at(ascii_upper(a + p + b), w, k),
    ensures
        occurs_at(ascii_upper(a), w, k) || occurs_at(ascii_upper(p), w, k - a.len()) || occurs_at(
            ascii_upper(b),
            w,
            k - a.len() - p.len(),
        ),
{
    let u = ascii_upper(a + p + b);
    lemma_upper_concat(a + p, b);
    lemma_upper_concat(a, p);
    let na = a.len() as int;
    let np = p.len() as int;
    let n = w.len() as int;
    if k <= na && na < k + n {
        lemma_occurs_char(u, w, k, na - k);
        assert(u[na] == upper_char(p[0]));
    } else if k <= na + np - 1 && na + np - 1 < k + n {
        lemma_occurs_char(u, w, k, na + np - 1 - k);
        assert(u[na + np - 1] == upper_char(p.last()));
    } else if k + n <= na {
        assert(u.subrange(k, k + n) =~= ascii_upper(a).subrange(k, k + n));
    } else if k >= na + np {
        assert(u.subrange(k, k + n) =~= ascii_upper(b).subrange(k - na - np, k - na - np + n));
    } else {
        assert(u.subrange(k, k + n) =~= ascii_upper(p).subrange(k - na, k - na + n));
    }
}

/// The text that the rewrite puts before the quoted column name.
pub open spec fn order_open() -> Seq<char> {
    " ORDER BY \""@
}

/// The text that the rewrite puts after the quoted column name.
pub open spec fn order_close(d: SortDirection) -> Seq<char> {
    "\" "@ + direction_sql(d)
}

/// `LIMIT` is nowhere in the text before the column name, and `ORDER` only at position 1.
pub proof fn lemma_order_open_words(k: int)
    ensures
        !occurs_at(ascii_upper(order_open()), "LIMIT"@, k),
        occurs_at(ascii_upper(order_open()), "ORDER"@, k) ==> k == 1,
        occurs_at(ascii_upper(order_open()), "ORDER"@, 1),
        order_open().len() == 11,
        order_open()[0] == ' ',
        order_open().last() == '"',
        ascii_upper(order_open()).subrange(0, 10) == " ORDER BY "@,
{
    reveal_strlit(" ORDER BY \"");
    reveal_strlit(" ORDER BY ");
    reveal_strlit("LIMIT");
    reveal_strlit("ORDER");
    let u = ascii_upper(order_open());
    assert(u =~= seq![' ', 'O', 'R', 'D', 'E', 'R', ' ', 'B', 'Y', ' ', '"']);
    if occurs_at(u, "LIMIT"@, k) {
        lemma_occurs_char(u, "LIMIT"@, k, 0);
        assert(false);
    }
    if occurs_at(u, "ORDER"@, k) {
        lemma_occurs_char(u, "ORDER"@, k, 0);
        lemma_occurs_char(u, "ORDER"@, k, 1);
    }
    assert(u.subrange(1, 6) =~= "ORDER"@);
    assert(u.subrange(0, 10) =~= " ORDER BY "@);
}

/// Neither word is in the text after the column name, which starts with `"` and ends
/// with `C`.
pub proof fn lemma_order_close_words(d: SortDirection, k: int)
    ensures
        !occurs_at(ascii_upper(order_close(d)), "LIMIT"@, k),
        !occurs_at(ascii_upper(order_close(d)), "ORDER"@, k),
        order_close(d).len() >= 1,
        order_close(d)[0] == '"',
        order_close(d).last() == 'C',
{
    reveal_strlit("\" ");
    reveal_strlit("ASC");
    reveal_strlit("DESC");
    reveal_strlit("LIMIT");
    reveal_strlit("ORDER");
    let u = ascii_upper(order_close(d));
    match d {
        SortDirection::Asc => {
            assert(order_close(d) =~= seq!['"', ' ', 'A', 'S', 'C']);
            assert(u =~= seq!['"', ' ', 'A', 'S', 'C']);
        },
        SortDirection::Desc => {
            assert(order_close(d) =~= seq!['"', ' ', 'D', 'E', 'S', 'C']);
            assert(u =~= seq!['"', ' ', 'D', 'E', 'S', 'C']);
        },
    }
    if occurs_at(u, "LIMIT"@, k) {
        lemma_occurs_char(u, "LIMIT"@, k, 0);
        assert(false);
    }
    if occurs_at(u, "ORDER"@, k) {
        lemma_occurs_char(u, "ORDER"@, k, 0);
        assert(false);
    }
}

/// `LIMIT` occurs in ` LIMIT ` at position 1 only.
pub proof fn lemma_limit_words(k: int)
    ensures
        occurs_at(ascii_upper(" LIMIT "@), "LIMIT"@, k) ==> k == 1,
        " LIMIT "@.len() == 7,
        " LIMIT "@[0] == ' ',
        " LIMIT "@.last() == ' ',
        ascii_upper(" LIMIT "@) == " LIMIT "@,
{
    reveal_strlit(" LIMIT ");
    reveal_strlit("LIMIT");
    let u = ascii_upper(" LIMIT "@);
    assert(u =~= " LIMIT "@);
    if occurs_at(u, "LIMIT"@, k) {
        lemma_occurs_char(u, "LIMIT"@, k, 0);
    }
}

/// The separators are apart from both words.
pub proof fn lemma_separators_apart()
    ensures
        apart_from(' ', "LIMIT"@),
        apart_from(' ', "ORDER"@),
        apart_from('"', "LIMIT"@),
        apart_from('"', "ORDER"@),
        apart_from('C', "LIMIT"@),
        apart_from('C', "ORDER"@),
{
    reveal_strlit("LIMIT");
    reveal_strlit("ORDER");
}

/// The ORDER BY clause that the rewrite puts in, for a column name without double quotes.
pub open spec fn order_part(c: Seq<char>, d: SortDirection) -> Seq<char> {
    order_open() + c + order_close(d)
}

/// Whether a text has neither `LIMIT` nor `ORDER` in it, in any ASCII case.
pub open spec fn keyword_free(s: Seq<char>) -> bool {
    no_word(s, "LIMIT"@) && no_word(s, "ORDER"@)
}

/// A longer keyword with spaces around it holds the bare word one position further.
pub proof fn lemma_inner_word(u: Seq<char>, p: Seq<char>, w: Seq<char>, j: int)
    requires
        occurs_at(u, p, j),
        1 + w.len() <= p.len(),
        p.subrange(1, 1 + w.len() as int) == w,
    ensures
        occurs_at(u, w, j + 1),
{
    assert(u.subrange(j + 1, j + 1 + w.len()) =~= u.subrange(j, j + p.len()).subrange(
        1,
        1 + w.len() as int,
    ));
}

/// The only last occurrence is the one found.
pub proof fn lemma_last_occurrence_is(u: Seq<char>, p: Seq<char>, i: int)
    requires
        is_last_occurrence(u, p, i),
    ensures
        last_occurrence(u, p) == Some(i),
{
    let j = choose|j: int| is_last_occurrence(u, p, j);
    assert(is_last_occurrence(u, p, j));
    if j < i {
        assert(!occurs_at(u, p, i));
    } else if j > i {
        assert(!occurs_at(u, p, j));
    }
}

/// `LIMIT` is nowhere in a keyword-free text followed by an ORDER BY clause over a
/// keyword-free column name; `ORDER` only where the clause puts it.
pub proof fn lemma_clause_words(b: Seq<char>, c: Seq<char>, d: SortDirection, k: int)
    requires
        keyword_free(b),
        keyword_free(c),
    ensures
        !occurs_at(ascii_upper(b + order_part(c, d)), "LIMIT"@, k),
        occurs_at(ascii_upper(b + order_part(c, d)), "ORDER"@, k) ==> k == b.len() + 1,
{
    let open = order_open();
    let close = order_close(d);
    let rest = c + close;
    assert(b + order_part(c, d) =~= b + open + rest);
    lemma_order_open_words(k - b.len());
    lemma_order_close_words(d, k - b.len() - open.len() - c.len());
    lemma_separators_apart();
    assert(rest =~= c + close + Seq::<char>::empty());
    let w1 = "LIMIT"@;
    let w2 = "ORDER"@;
    reveal_strlit("LIMIT");
    reveal_strlit("ORDER");
    if occurs_at(ascii_upper(b + open + rest), w1, k) {
        lemma_occurs_split(b, open, rest, w1, k);
        assert(!occurs_at(ascii_upper(b), w1, k));
        if occurs_at(ascii_upper(rest), w1, k - b.len() - open.len()) {
            lemma_occurs_split(c, close, Seq::<char>::empty(), w1, k - b.len() - open.len());
            assert(!occurs_at(ascii_upper(c), w1, k - b.len() - open.len()));
        }
    }
    if occurs_at(ascii_upper(b + open + rest), w2, k) {
        lemma_occurs_split(b, open, rest, w2, k);
        assert(!occurs_at(ascii_upper(b), w2, k));
        if occurs_at(ascii_upper(rest), w2, k - b.len() - open.len()) {
            lemma_occurs_split(c, close, Seq::<char>::empty(), w2, k - b.len() - open.len());
            assert(!occurs_at(ascii_upper(c), w2, k - b.len() - open.len()));
        }
    }
}

/// In a text with no `LIMIT`, followed by ` LIMIT ` and a text with no `LIMIT`, the word
/// is only where the clause puts it.
pub proof fn lemma_limit_tail_words(a: Seq<char>, n: Seq<char>, k: int)
    requires
        no_word(a, "LIMIT"@),
        no_word(n, "LIMIT"@),
        occurs_at(ascii_upper(a + " LIMIT "@ + n), "LIMIT"@, k),
    ensures
        k == a.len() + 1,
{
    lemma_limit_words(k - a.len());
    lemma_separators_apart();
    lemma_occurs_split(a, " LIMIT "@, n, "LIMIT"@, k);
    assert(!occurs_at(ascii_upper(a), "LIMIT"@, k));
    assert(!occurs_at(ascii_upper(n), "LIMIT"@, k - a.len() - 7));
}

/// A query body that the rewrite keeps as it is: not empty, not starting or ending with
/// whitespace, not ending with `;`, and with neither keyword in it.
pub open spec fn plain_body(b: Seq<char>) -> bool {
    &&& b.len() > 0
    &&& !is_ws(b[0])
    &&& !is_ws(b.last())
    &&& b.last() != ';'
    &&& keyword_free(b)
}

/// The text of a LIMIT clause after ` LIMIT `: not empty, not ending with whitespace or
/// `;`, and without the word `LIMIT`.
pub open spec fn plain_limit(n: Seq<char>) -> bool {
    &&& n.len() > 0
    &&& !is_ws(n.last())
    &&& n.last() != ';'
    &&& no_word(n, "LIMIT"@)
}

/// The LIMIT clause of a query, if any.
pub open spec fn tail_of(n: Option<Seq<char>>) -> Seq<char> {
    match n {
        Some(t) => " LIMIT "@ + t,
        None => Seq::<char>::empty(),
    }
}

/// The middle of a query: nothing, or an ORDER BY clause.
pub open spec fn middle_of(o: Option<(Seq<char>, SortDirection)>) -> Seq<char> {
    match o {
        Some((c, d)) => order_part(c, d),
        None => Seq::<char>::empty(),
    }
}

/// What the rewrite puts in for a direction, or nothing.
pub open spec fn clause_of(c: Seq<char>, x: Option<SortDirection>) -> Seq<char> {
    match x {
        Some(d) => " ORDER BY "@ + column_safe_spec(c) + " "@ + direction_sql(d),
        None => Seq::<char>::empty(),
    }
}

/// A text that starts and ends with no whitespace and ends with no `;` is its own core.
pub proof fn lemma_core_of_plain(x: Seq<char>)
    requires
        x.len() > 0,
        !is_ws(x[0]),
        !is_ws(x.last()),
        x.last() != ';',
    ensures
        trim(x) == x,
        sql_core(x) == x,
{
    lemma_trim_start_at(x, ws_pred(), 0);
    assert(x.subrange(0, x.len() as int) =~= x);
    lemma_trim_end_at(x, ws_pred(), x.len() as int);
    lemma_trim_end_at(x, char_pred(';'), x.len() as int);
}

/// A column name without double quotes is quoted by wrapping alone.
pub proof fn lemma_double_no_quote(c: Seq<char>)
    requires
        !c.contains('"'),
    ensures
        double_char(c, '"') == c,
    decreases c.len(),
{
    if c.len() > 0 {
        assert(c[0] != '"') by {
            assert(c.contains(c[0]));
        }
        assert(!c.drop_first().contains('"')) by {
            if c.drop_first().contains('"') {
                let i = choose|i: int| 0 <= i < c.drop_first().len() && c.drop_first()[i] == '"';
                assert(c[i + 1] == '"');
            }
        }
        lemma_double_no_quote(c.drop_first());
        assert(seq![c[0]] + c.drop_first() =~= c);
    }
}

/// Neither the body nor the ORDER BY clause after it holds `LIMIT`.
pub proof fn lemma_no_limit_before_tail(b: Seq<char>, o: Option<(Seq<char>, SortDirection)>)
    requires
        keyword_free(b),
        o matches Some((c, d)) ==> keyword_free(c),
    ensures
        no_word(b + middle_of(o), "LIMIT"@),
{
    assert forall|k: int| !occurs_at(ascii_upper(b + middle_of(o)), "LIMIT"@, k) by {
        match o {
            Some((c, d)) => lemma_clause_words(b, c, d, k),
            None => assert(b + middle_of(o) =~= b),
        }
    }
}

/// The LIMIT clause is split off where it stands.
pub proof fn lemma_split_at_tail(bm: Seq<char>, n: Option<Seq<char>>)
    requires
        no_word(bm, "LIMIT"@),
        n matches Some(t) ==> plain_limit(t),
    ensures
        split_limit_spec(bm + tail_of(n)) == (bm, tail_of(n)),
{
    reveal_strlit(" LIMIT ");
    reveal_strlit("LIMIT");
    let lim = " LIMIT "@;
    assert(lim.subrange(1, 6) =~= "LIMIT"@);
    let tl = tail_of(n);
    let xq = bm + tl;
    lemma_upper_concat(bm, tl);
    match n {
        Some(t) => {
            lemma_limit_words(0);
            let i0 = bm.len() as int;
            assert(tl =~= lim + t);
            lemma_upper_concat(lim, t);
            assert(ascii_upper(xq).subrange(i0, i0 + 7) =~= lim);
            assert forall|j: int| j > i0 implies !occurs_at(ascii_upper(xq), lim, j) by {
                if occurs_at(ascii_upper(xq), lim, j) {
                    lemma_inner_word(ascii_upper(xq), lim, "LIMIT"@, j);
                    assert(xq =~= bm + lim + t);
                    lemma_limit_tail_words(bm, t, j + 1);
                }
            }
            lemma_last_occurrence_is(ascii_upper(xq), lim, i0);
        },
        None => {
            assert(xq =~= bm);
            assert forall|j: int| !occurs_at(ascii_upper(xq), lim, j) by {
                if occurs_at(ascii_upper(xq), lim, j) {
                    lemma_inner_word(ascii_upper(xq), lim, "LIMIT"@, j);
                }
            }
        },
    }
    assert(split_limit_spec(xq).0 =~= bm);
    assert(split_limit_spec(xq).1 =~= tl);
}

/// The ORDER BY clause after the body is cut off, and only it.
pub proof fn lemma_strip_clause(b: Seq<char>, o: Option<(Seq<char>, SortDirection)>)
    requires
        keyword_free(b),
        o matches Some((c, d)) ==> keyword_free(c),
    ensures
        strip_order_by_spec(b + middle_of(o)) == b,
{
    reveal_strlit(" ORDER BY ");
    reveal_strlit("ORDER");
    let obk = " ORDER BY "@;
    assert(obk.subrange(1, 6) =~= "ORDER"@);
    let m = middle_of(o);
    let bm = b + m;
    match o {
        Some((c, d)) => {
            lemma_order_open_words(0);
            lemma_upper_concat(b, m);
            assert(m =~= order_open() + (c + order_close(d)));
            lemma_upper_concat(order_open(), c + order_close(d));
            let i1 = b.len() as int;
            assert(ascii_upper(order_open()).subrange(0, 10) =~= obk);
            assert(ascii_upper(bm).subrange(i1, i1 + 10) =~= obk);
            assert forall|j: int| j > i1 implies !occurs_at(ascii_upper(bm), obk, j) by {
                if occurs_at(ascii_upper(bm), obk, j) {
                    lemma_inner_word(ascii_upper(bm), obk, "ORDER"@, j);
                    lemma_clause_words(b, c, d, j + 1);
                }
            }
            lemma_last_occurrence_is(ascii_upper(bm), obk, i1);
        },
        None => {
            assert(bm =~= b);
            assert forall|j: int| !occurs_at(ascii_upper(bm), obk, j) by {
                if occurs_at(ascii_upper(bm), obk, j) {
                    lemma_inner_word(ascii_upper(bm), obk, "ORDER"@, j);
                }
            }
        },
    }
    assert(strip_order_by_spec(bm) =~= b);
}

/// The query built from the pieces starts and ends with no whitespace, and ends with no
/// `;`.
pub proof fn lemma_pieces_plain(
    b: Seq<char>,
    o: Option<(Seq<char>, SortDirection)>,
    n: Option<Seq<char>>,
)
    requires
        plain_body(b),
        n matches Some(t) ==> plain_limit(t),
    ensures
        ({
            let xq = b + middle_of(o) + tail_of(n);
            &&& xq.len() > 0
            &&& !is_ws(xq[0])
            &&& !is_ws(xq.last())
            &&& xq.last() != ';'
        }),
{
    let xq = b + middle_of(o) + tail_of(n);
    assert(xq[0] == b[0]);
    match n {
        Some(t) => assert(xq.last() == t.last()),
        None => match o {
            Some((c, d)) => {
                lemma_order_close_words(d, 0);
                assert(xq.last() == order_close(d).last());
            },
            None => assert(xq.last() == b.last()),
        },
    }
}

/// The rewrite of a query made of a plain body, optionally an ORDER BY clause, and
/// optionally a plain LIMIT clause: the body is kept, the ORDER BY clause replaced (or
/// dropped) and the LIMIT clause kept at the end.
pub proof fn lemma_rewrite(
    b: Seq<char>,
    o: Option<(Seq<char>, SortDirection)>,
    n: Option<Seq<char>>,
    c2: Seq<char>,
    x: Option<SortDirection>,
)
    requires
        plain_body(b),
        o matches Some((c, d)) ==> keyword_free(c),
        n matches Some(t) ==> plain_limit(t),
    ensures
        order_by_spec(b + middle_of(o) + tail_of(n), c2, x) == b + clause_of(c2, x) + tail_of(n),
{
    let xq = b + middle_of(o) + tail_of(n);
    lemma_pieces_plain(b, o, n);
    lemma_core_of_plain(xq);
    lemma_core_of_plain(b);
    lemma_no_limit_before_tail(b, o);
    lemma_split_at_tail(b + middle_of(o), n);
    lemma_strip_clause(b, o);
    assert(order_by_spec(xq, c2, x) =~= b + clause_of(c2, x) + tail_of(n));
}

/// Law: sorting a plain query by a column puts one ORDER BY clause before its LIMIT
/// clause; removing the sort gives the query back, and sorting again by any column
/// replaces the clause, as if the first sort had not been made. The query is a body and
/// an optional LIMIT clause (` LIMIT ` and a text), and neither the body, the LIMIT text
/// nor the column name holds the words `ORDER` or `LIMIT` in any ASCII case; the column
/// name has no double quote.
pub proof fn law_order_by_replace_and_remove(
    b: Seq<char>,
    n: Option<Seq<char>>,
    c: Seq<char>,
    d: SortDirection,
    c2: Seq<char>,
    d2: SortDirection,
)
    requires
        plain_body(b),
        n matches Some(t) ==> plain_limit(t),
        keyword_free(c),
        !c.contains('"'),
    ensures
        order_by_spec(b + tail_of(n), c, None) == b + tail_of(n),
        order_by_spec(b + tail_of(n), c, Some(d)) == b + order_part(c, d) + tail_of(n),
        order_by_spec(order_by_spec(b + tail_of(n), c, Some(d)), c2, None) == b + tail_of(n),
        order_by_spec(order_by_spec(b + tail_of(n), c, Some(d)), c2, Some(d2)) == order_by_spec(
            b + tail_of(n),
            c2,
            Some(d2),
        ),
{
    let s = b + tail_of(n);
    assert(b + middle_of(None) + tail_of(n) =~= s);
    lemma_rewrite(b, None, n, c, None);
    assert(b + clause_of(c, None) + tail_of(n) =~= s);
    lemma_rewrite(b, None, n, c, Some(d));
    lemma_double_no_quote(c);
    reveal_strlit(" ORDER BY ");
    reveal_strlit(" ORDER BY \"");
    reveal_strlit(" ");
    reveal_strlit("\" ");
    assert(clause_of(c, Some(d)) =~= order_part(c, d));
    let r = b + order_part(c, d) + tail_of(n);
    assert(b + middle_of(Some((c, d))) + tail_of(n) =~= r);
    lemma_rewrite(b, Some((c, d)), n, c2, None);
    lemma_rewrite(b, Some((c, d)), n, c2, Some(d2));
    lemma_rewrite(b, None, n, c2, Some(d2));
}

} // verus!
