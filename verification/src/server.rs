//! Server settings read from configuration text: the origins that
//! cross-origin requests may come from.
use vstd::prelude::*;

use crate::db::sql::string_views;
use crate::text::{chars_of, str_is, string_of, trim, trim_chars};

verus! {

/// The pieces of `s` between the separators, in order (`"a,,b"` has three,
/// the empty text has one, the empty piece).
pub open spec fn split_on(s: Seq<char>, sep: char) -> Seq<Seq<char>>
    decreases s.len(),
{
    if s.len() == 0 {
        seq![Seq::empty()]
    } else {
        let prev = split_on(s.drop_last(), sep);
        if s.last() == sep {
            prev.push(Seq::empty())
        } else {
            prev.update(prev.len() - 1, prev.last().push(s.last()))
        }
    }
}

/// A text is a valid header value when each of its bytes is a tab or at
/// least a space and not DEL; as characters: a tab, or a character from
/// the space on other than DEL (every byte of a non-ASCII character is
/// valid).
pub open spec fn header_text(s: Seq<char>) -> bool {
    forall|i: int| 0 <= i < s.len() ==> #[trigger] header_char(s[i])
}

/// A character allowed in a header value.
pub open spec fn header_char(c: char) -> bool {
    (c as u32 >= 32 && c as u32 != 127) || c == '\t'
}

/// The allowed origins named by comma-separated pieces: each piece
/// trimmed, kept when it is not empty and is a valid header value.
pub open spec fn origin_entries(parts: Seq<Seq<char>>) -> Seq<Seq<char>>
    decreases parts.len(),
{
    if parts.len() == 0 {
        Seq::empty()
    } else {
        let prev = origin_entries(parts.drop_last());
        let t = trim(parts.last());
        if t.len() > 0 && header_text(t) {
            prev.push(t)
        } else {
            prev
        }
    }
}

/// The origins a configuration allows: any origin (`None`) for an empty
/// setting, `*`, or a list with no usable origin; otherwise the list.
pub open spec fn allowed_origin_list(origins: Seq<char>) -> Option<Seq<Seq<char>>> {
    if origins.len() == 0 || origins == "*"@ {
        None
    } else {
        let l = origin_entries(split_on(origins, ','));
        if l.len() == 0 {
            None
        } else {
            Some(l)
        }
    }
}

proof fn lemma_split_nonempty(s: Seq<char>, sep: char)
    ensures
        split_on(s, sep).len() >= 1,
    decreases s.len(),
{
    if s.len() > 0 {
        lemma_split_nonempty(s.drop_last(), sep);
    }
}

/// Every allowed origin is a non-empty valid header value, and is the
/// trimmed text of one of the comma-separated pieces.
pub proof fn lemma_origin_entries_clean(parts: Seq<Seq<char>>)
    ensures
        forall|i: int| 0 <= i < origin_entries(parts).len() ==> {
            let o = #[trigger] origin_entries(parts)[i];
            &&& o.len() > 0
            &&& header_text(o)
            &&& exists|j: int| 0 <= j < parts.len() && o == trim(parts[j])
        },
    decreases parts.len(),
{
    if parts.len() > 0 {
        let prev = parts.drop_last();
        lemma_origin_entries_clean(prev);
        assert forall|i: int| 0 <= i < origin_entries(parts).len() implies {
            let o = #[trigger] origin_entries(parts)[i];
            &&& o.len() > 0
            &&& header_text(o)
            &&& exists|j: int| 0 <= j < parts.len() && o == trim(parts[j])
        } by {
            let o = origin_entries(parts)[i];
            if i < origin_entries(prev).len() {
                assert(o == origin_entries(prev)[i]);
                let j = choose|j: int| 0 <= j < prev.len() && o == trim(prev[j]);
                assert(prev[j] == parts[j]);
            } else {
                assert(o == trim(parts.last()));
                assert(o == trim(parts[parts.len() - 1]));
            }
        }
    }
}

fn is_header_text(s: &[char]) -> (r: bool)
    ensures
        r == header_text(s@),
{
    let mut i: usize = 0;
    while i < s.len()
        invariant
            i <= s.len(),
            forall|j: int| 0 <= j < i ==> #[trigger] header_char(s@[j]),
        decreases s.len() - i,
    {
        let c = s[i];
        let code = c as u32;
        if !((code >= 32 && code != 127) || c == '\t') {
            assert(!header_char(s@[i as int]));
            return false;
        }
        i = i + 1;
    }
    true
}

fn push_origin(out: &mut Vec<String>, piece: &[char])
    ensures
        string_views(final(out)@) == string_views(old(out)@) + {
            let t = trim(piece@);
            if t.len() > 0 && header_text(t) { seq![t] } else { Seq::empty() }
        },
{
    let t = trim_chars(piece);
    if t.len() > 0 && is_header_text(t.as_slice()) {
        let ghost before = out@;
        out.push(string_of(t.as_slice()));
        assert(string_views(out@) =~= string_views(before) + seq![t@]);
    } else {
        assert(string_views(out@) =~= string_views(out@) + Seq::<Seq<char>>::empty());
    }
}

/// The origins that cross-origin requests may come from, from the
/// comma-separated setting (see `allowed_origin_list`): `None` allows any
/// origin.
pub fn cors_allowed_origins(origins: &str) -> (r: Option<Vec<String>>)
    ensures
        match allowed_origin_list(origins@) {
            None => r is None,
            Some(l) => r matches Some(v) && string_views(v@) == l,
        },
{
    if origins.is_empty() || str_is(origins, "*") {
        return None;
    }
    let s = chars_of(origins);
    let mut out: Vec<String> = Vec::new();
    let mut current: Vec<char> = Vec::new();
    let mut i: usize = 0;
    proof {
        assert(s@.take(0) =~= Seq::<char>::empty());
        assert(split_on(s@.take(0), ',').drop_last() =~= Seq::<Seq<char>>::empty());
    }
    while i < s.len()
        invariant
            i <= s.len(),
            s@ == origins@,
            split_on(s@.take(i as int), ',').len() >= 1,
            current@ == split_on(s@.take(i as int), ',').last(),
            string_views(out@) == origin_entries(split_on(s@.take(i as int), ',').drop_last()),
        decreases s.len() - i,
    {
        let c = s[i];
        let ghost prev = split_on(s@.take(i as int), ',');
        assert(s@.take(i + 1).drop_last() =~= s@.take(i as int));
        assert(s@.take(i + 1).last() == c);
        if c == ',' {
            push_origin(&mut out, current.as_slice());
            current = Vec::new();
            assert(split_on(s@.take(i + 1), ',') == prev.push(Seq::empty()));
            assert(prev.push(Seq::<char>::empty()).drop_last() =~= prev);
            assert(prev =~= prev.drop_last().push(prev.last()));
            assert(origin_entries(prev) == origin_entries(prev.drop_last()) + {
                let t = trim(prev.last());
                if t.len() > 0 && header_text(t) { seq![t] } else { Seq::empty() }
            }) by {
                let t = trim(prev.last());
                if t.len() > 0 && header_text(t) {
                    assert(origin_entries(prev.drop_last()).push(t) =~= origin_entries(prev.drop_last()) + seq![t]);
                } else {
                    assert(origin_entries(prev.drop_last()) =~= origin_entries(prev.drop_last()) + Seq::<Seq<char>>::empty());
                }
            }
            assert(current@ =~= Seq::<char>::empty());
        } else {
            current.push(c);
            let ghost next = prev.update(prev.len() - 1, prev.last().push(c));
            assert(split_on(s@.take(i + 1), ',') == next);
            assert(next.drop_last() =~= prev.drop_last());
        }
        i = i + 1;
    }
    assert(s@.take(s.len() as int) =~= s@);
    let ghost parts = split_on(s@, ',');
    push_origin(&mut out, current.as_slice());
    proof {
        assert(parts =~= parts.drop_last().push(parts.last()));
        let t = trim(parts.last());
        if t.len() > 0 && header_text(t) {
            assert(origin_entries(parts.drop_last()).push(t) =~= origin_entries(parts.drop_last()) + seq![t]);
        } else {
            assert(origin_entries(parts.drop_last()) =~= origin_entries(parts.drop_last()) + Seq::<Seq<char>>::empty());
        }
    }
    if out.len() == 0 {
        None
    } else {
        Some(out)
    }
}

} // verus!
