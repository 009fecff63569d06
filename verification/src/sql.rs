//! Building blocks of the SQL text that the list and search endpoints send:
//! quoting of string literals and the `AND`-joined filter clauses.

use vstd::prelude::*;
use crate::text::{decimal_i64, int_decimal, push_char, string_of};

verus! {

/// The character sequences a vector of strings holds.
pub open spec fn views(v: Seq<String>) -> Seq<Seq<char>> {
    v.map_values(|s: String| s@)
}

/// What one character becomes inside a quoted SQL string literal: a single
/// quote is doubled, everything else stays.
pub open spec fn quote_piece(c: char) -> Seq<char> {
    if c == '\'' {
        seq!['\'', '\'']
    } else {
        seq![c]
    }
}

/// `s` with every `'` doubled (std's `s.replace('\'', "''")`).
pub open spec fn sql_quote_spec(s: Seq<char>) -> Seq<char>
    decreases s.len(),
{
    if s.len() == 0 {
        Seq::empty()
    } else {
        sql_quote_spec(s.drop_last()) + quote_piece(s.last())
    }
}

/// Doubles every single quote of `s`, so that it can stand inside a quoted
/// SQL string literal.
pub fn sql_quote(s: &str) -> (r: String)
    ensures
        r@ == sql_quote_spec(s@),
{
    let mut r = String::new();
    let n = s.unicode_len();
    let mut i: usize = 0;
    while i < n
        invariant
            n == s@.len(),
            i <= n,
            r@ == sql_quote_spec(s@.take(i as int)),
        decreases n - i,
    {
        let c = s.get_char(i);
        assert(s@.take(i + 1).drop_last() =~= s@.take(i as int));
        if c == '\'' {
            push_char(&mut r, '\'');
            push_char(&mut r, '\'');
            assert(r@ =~= sql_quote_spec(s@.take(i as int)) + quote_piece(c));
        } else {
            push_char(&mut r, c);
            assert(r@ =~= sql_quote_spec(s@.take(i as int)) + quote_piece(c));
        }
        i = i + 1;
    }
    assert(s@.take(n as int) =~= s@);
    r
}

/// A quoted string never closes its literal early: the only quotes in it
/// come in pairs that SQL reads as one quote character.
pub proof fn law_quote_keeps_other_chars(s: Seq<char>)
    ensures
        sql_quote_spec(s).len() >= s.len(),
        (forall|i: int| 0 <= i < s.len() ==> s[i] != '\'') ==> sql_quote_spec(s) == s,
    decreases s.len(),
{
    if s.len() > 0 {
        law_quote_keeps_other_chars(s.drop_last());
        if forall|i: int| 0 <= i < s.len() ==> s[i] != '\'' {
            assert forall|i: int| 0 <= i < s.drop_last().len() implies s.drop_last()[i] != '\'' by {
                assert(s.drop_last()[i] == s[i]);
            }
            assert(s.drop_last().push(s.last()) =~= s);
            assert(s.drop_last() + quote_piece(s.last()) =~= s);
        }
    } else {
        assert(sql_quote_spec(s) =~= s);
    }
}

/// The clauses joined by `sep`.
pub open spec fn join_spec(parts: Seq<Seq<char>>, sep: Seq<char>) -> Seq<char>
    decreases parts.len(),
{
    if parts.len() == 0 {
        Seq::empty()
    } else if parts.len() == 1 {
        parts[0]
    } else {
        join_spec(parts.drop_last(), sep) + sep + parts.last()
    }
}

/// The text appended to a `WHERE` condition for extra filters: nothing when
/// there are none, otherwise `AND ` and the filters joined by ` AND `.
pub open spec fn and_filters_spec(filters: Seq<Seq<char>>) -> Seq<char> {
    if filters.len() == 0 {
        Seq::empty()
    } else {
        "AND "@ + join_spec(filters, " AND "@)
    }
}

/// Every filter is kept, in order: no filters add nothing; one more filter
/// adds `AND ` and the filter when it is the first, ` AND ` and the filter
/// otherwise.
pub proof fn law_and_filters_keep_each(filters: Seq<Seq<char>>, f: Seq<char>)
    ensures
        and_filters_spec(Seq::empty()) == Seq::<char>::empty(),
        and_filters_spec(filters.push(f)) == and_filters_spec(filters) + (if filters.len() == 0 {
            "AND "@
        } else {
            " AND "@
        }) + f,
{
    let all = filters.push(f);
    assert(all.drop_last() =~= filters);
    assert(all.last() == f);
    if filters.len() == 0 {
        assert(all.len() == 1);
        assert(all[0] == f);
        assert(Seq::<char>::empty() + "AND "@ + f =~= "AND "@ + f);
    } else {
        assert("AND "@ + (join_spec(filters, " AND "@) + " AND "@ + f) =~= ("AND "@ + join_spec(
            filters,
            " AND "@,
        )) + " AND "@ + f);
    }
}

/// `AND`-joins the extra filters (see [`and_filters_spec`]).
pub fn and_filters(filters: &Vec<String>) -> (r: String)
    ensures
        r@ == and_filters_spec(views(filters@)),
{
    if filters.len() == 0 {
        return String::new();
    }
    let mut joined = filters[0].clone();
    let sep = " AND ";
    let mut i: usize = 1;
    assert(views(filters@).take(1) =~= seq![filters@[0]@]);
    while i < filters.len()
        invariant
            1 <= i <= filters@.len(),
            joined@ == join_spec(views(filters@).take(i as int), sep@),
        decreases filters.len() - i,
    {
        let ghost before = joined@;
        joined.append(sep);
        joined.append(filters[i].as_str());
        assert(views(filters@).take(i + 1).drop_last() =~= views(filters@).take(i as int));
        assert(views(filters@).take(i + 1).last() == filters@[i as int]@);
        assert(joined@ =~= before + sep@ + filters@[i as int]@);
        i = i + 1;
    }
    assert(views(filters@).take(filters@.len() as int) =~= views(filters@));
    let mut r = String::from_str("AND ");
    r.append(joined.as_str());
    r
}

/// `prefix` followed by the decimal text of `n` (what `format!("{prefix}{n}")`
/// writes).
pub fn with_number(prefix: &str, n: i64) -> (r: String)
    ensures
        r@ == prefix@ + int_decimal(n as int),
{
    let mut r = String::from_str(prefix);
    let d = decimal_i64(n);
    let ds = string_of(&d);
    r.append(ds.as_str());
    r
}

/// `prefix`, the quoted `value`, and `suffix` (what
/// `format!("{prefix}{quoted}{suffix}")` writes).
pub fn with_quoted(prefix: &str, value: &str, suffix: &str) -> (r: String)
    ensures
        r@ == prefix@ + sql_quote_spec(value@) + suffix@,
{
    let mut r = String::from_str(prefix);
    let q = sql_quote(value);
    r.append(q.as_str());
    r.append(suffix);
    r
}

} // verus!
