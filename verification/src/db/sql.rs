//! Building blocks of the statements that the repositories send: numbered
//! `SET` assignments, `WHERE` conditions and `LIMIT`/`OFFSET` tails.
use vstd::prelude::*;
use vstd::string::*;
use crate::text::{chars_of, string_of, push_all, dec, dec_chars, signed_dec, dec_i64_chars, join, views};

verus! {

/// The assignment `<column> = $<n>`.
pub open spec fn assignment(column: Seq<char>, n: nat) -> Seq<char> {
    column + " = $"@ + dec(n)
}

/// The assignments of the present columns, in order, numbered `$1`, `$2`,
/// … by their place among the present ones.
pub open spec fn set_parts(columns: Seq<(&str, bool)>) -> Seq<Seq<char>>
    decreases columns.len(),
{
    if columns.len() == 0 {
        Seq::empty()
    } else {
        let prefix = set_parts(columns.drop_last());
        if columns.last().1 {
            prefix.push(assignment(columns.last().0@, prefix.len() + 1))
        } else {
            prefix
        }
    }
}

pub proof fn lemma_set_parts_len(columns: Seq<(&str, bool)>)
    ensures
        set_parts(columns).len() <= columns.len(),
    decreases columns.len(),
{
    if columns.len() > 0 {
        lemma_set_parts_len(columns.drop_last());
    }
}

/// The string views of a list of strings.
pub open spec fn string_views(v: Seq<String>) -> Seq<Seq<char>> {
    v.map_values(|s: String| s@)
}

/// The numbered assignments of the present columns (see `set_parts`).
pub fn numbered_set_parts(columns: &Vec<(&str, bool)>) -> (r: Vec<String>)
    requires
        columns.len() < u32::MAX,
    ensures
        string_views(r@) == set_parts(columns@),
{
    let mut parts: Vec<String> = Vec::new();
    let mut i: usize = 0;
    assert(columns@.take(0) =~= Seq::<(&str, bool)>::empty());
    assert(string_views(parts@) =~= Seq::<Seq<char>>::empty());
    while i < columns.len()
        invariant
            i <= columns.len(),
            columns.len() < u32::MAX,
            string_views(parts@) == set_parts(columns@.take(i as int)),
        decreases columns.len() - i,
    {
        assert(columns@.take(i + 1).drop_last() =~= columns@.take(i as int));
        proof {
            lemma_set_parts_len(columns@.take(i as int));
        }
        let (column, present) = columns[i];
        if present {
            let n: u32 = (parts.len() + 1) as u32;
            let mut text = chars_of(column);
            push_all(&mut text, chars_of(" = $").as_slice());
            push_all(&mut text, dec_chars(n).as_slice());
            let ghost before = parts@;
            parts.push(string_of(text.as_slice()));
            assert(string_views(parts@) =~= string_views(before).push(assignment(column@, (before.len() + 1) as nat)));
        }
        i = i + 1;
    }
    assert(columns@.take(columns.len() as int) =~= columns@);
    parts
}

/// ` LIMIT <n>` when a limit is given, else nothing.
pub open spec fn limit_clause(limit: Option<i64>) -> Seq<char> {
    match limit {
        Some(l) => " LIMIT "@ + signed_dec(l as int),
        None => Seq::empty(),
    }
}

/// ` OFFSET <n>` when an offset is given, else nothing.
pub open spec fn offset_clause(offset: Option<i64>) -> Seq<char> {
    match offset {
        Some(o) => " OFFSET "@ + signed_dec(o as int),
        None => Seq::empty(),
    }
}

/// ` LIMIT <n>` and ` OFFSET <n>` for the given ones.
pub fn limit_offset_clause(limit: Option<i64>, offset: Option<i64>) -> (r: String)
    ensures
        r@ == limit_clause(limit) + offset_clause(offset),
{
    let mut text: Vec<char> = Vec::new();
    match limit {
        Some(l) => {
            push_all(&mut text, chars_of(" LIMIT ").as_slice());
            push_all(&mut text, dec_i64_chars(l).as_slice());
        },
        None => {},
    }
    let ghost first = text@;
    match offset {
        Some(o) => {
            push_all(&mut text, chars_of(" OFFSET ").as_slice());
            push_all(&mut text, dec_i64_chars(o).as_slice());
        },
        None => {},
    }
    assert(text@ =~= limit_clause(limit) + offset_clause(offset));
    string_of(text.as_slice())
}

/// `WHERE` and the conditions joined with ` AND `, or nothing without
/// conditions.
pub open spec fn where_clause(conditions: Seq<Seq<char>>) -> Seq<char> {
    if conditions.len() == 0 {
        Seq::empty()
    } else {
        "WHERE "@ + join(conditions, " AND "@)
    }
}

/// The `ILIKE` pattern of a search text: the text between `%` signs.
pub open spec fn like_pattern(search: Seq<char>) -> Seq<char> {
    seq!['%'] + search + seq!['%']
}

/// The `ILIKE` pattern of a search text.
pub fn contains_pattern(search: &str) -> (r: String)
    ensures
        r@ == like_pattern(search@),
{
    let mut text: Vec<char> = Vec::new();
    text.push('%');
    push_all(&mut text, chars_of(search).as_slice());
    text.push('%');
    assert(text@ =~= like_pattern(search@));
    string_of(text.as_slice())
}

/// The `ILIKE` pattern of an optional search text; an empty text is no
/// search.
pub fn search_pattern(search: &Option<String>) -> (r: Option<String>)
    ensures
        match search {
            Some(s) => if s@.len() > 0 {
                r is Some && r.unwrap()@ == like_pattern(s@)
            } else {
                r is None
            },
            None => r is None,
        },
{
    match search {
        Some(s) => {
            if s.as_str().unicode_len() > 0 {
                Some(contains_pattern(s.as_str()))
            } else {
                None
            }
        },
        None => None,
    }
}

/// The `ILIKE` pattern of an optional search text, an empty one included
/// (it matches every text).
pub fn optional_contains_pattern(search: &Option<String>) -> (r: Option<String>)
    ensures
        match search {
            Some(s) => r matches Some(p) && p@ == like_pattern(s@),
            None => r is None,
        },
{
    match search {
        Some(s) => Some(contains_pattern(s.as_str())),
        None => None,
    }
}

} // verus!
