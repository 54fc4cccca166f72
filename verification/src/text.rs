//! Character-sequence helpers shared by the prompt, settings and taxonomy
//! logic. Strings are reasoned about through their `Seq<char>` views.
use vstd::prelude::*;

verus! {

/// The characters of `s`, in order.
pub fn chars_of(s: &str) -> (v: Vec<char>)
    ensures
        v@ == s@,
{
    let mut v: Vec<char> = Vec::new();
    for c in it: s.chars()
        invariant
            v@ == it.seq().take(it.index() as int),
            it.seq() == s@,
    {
        v.push(c);
    }
    v
}

} // verus!

verus! {

/// A `String` holding exactly the given characters.
///
/// Calls `FromIterator<char>` for `String` (std), which appends the
/// characters in order; the contract claims the result's view is the input.
#[verifier::external_body]
pub(crate) fn string_of(v: &[char]) -> (r: String)
    ensures
        r@ == v@,
{
    v.iter().collect()
}

/// What `str::to_lowercase` returns (Unicode lowercase mapping).
pub uninterp spec fn lowercase_of(s: Seq<char>) -> Seq<char>;

/// What `str::to_uppercase` returns (Unicode uppercase mapping).
pub uninterp spec fn uppercase_of(s: Seq<char>) -> Seq<char>;

/// No character of `s` is outside ASCII or an ASCII capital letter.
pub open spec fn ascii_without_capitals(s: Seq<char>) -> bool {
    forall|i: int| 0 <= i < s.len() ==> (s[i] as u32) < 0x80 && !('A' <= s[i] && s[i] <= 'Z')
}

/// Every character of `s` is ASCII.
pub open spec fn all_ascii(s: Seq<char>) -> bool {
    forall|i: int| 0 <= i < s.len() ==> (s[i] as u32) < 0x80
}

/// ASCII lowercase of one character: capitals `A`..`Z` map to `a`..`z`.
pub open spec fn ascii_lower(c: char) -> char {
    if 'A' <= c && c <= 'Z' {
        ((c as u32) + 32) as char
    } else {
        c
    }
}

/// ASCII lowercase of every character of `s`.
pub open spec fn ascii_lower_seq(s: Seq<char>) -> Seq<char> {
    s.map_values(|c: char| ascii_lower(c))
}

/// Lowercase of `s`: the ASCII lowercase for an ASCII string, otherwise
/// what `str::to_lowercase` gives.
pub open spec fn lower_of(s: Seq<char>) -> Seq<char> {
    if all_ascii(s) {
        ascii_lower_seq(s)
    } else {
        lowercase_of(s)
    }
}

/// From position `k` on, `s` is ASCII and starts with a comma.
pub open spec fn ascii_comma_tail(s: Seq<char>, k: int) -> bool {
    0 <= k < s.len() && s[k] == ',' && all_ascii(s.skip(k))
}

/// Calls `str::to_lowercase`; its result depends on the characters alone,
/// and is named `lowercase_of`. As documented, on an ASCII string it equals
/// `to_ascii_lowercase`: only the capitals `A`..`Z` change; in particular an
/// ASCII string without capitals maps to itself.
///
/// `str::to_lowercase` maps each character on its own (ASCII ones to their
/// ASCII lowercase), except a capital sigma, whose form depends on the
/// characters around it: it looks past case-ignorable characters to the
/// next one and asks whether that is a cased letter. A comma is neither, so
/// an ASCII part that starts with a comma is lowercased on its own and does
/// not change how what stands before it is lowercased; the last clause says
/// so.
#[verifier::external_body]
pub(crate) fn to_lowercase(s: &str) -> (r: String)
    ensures
        r@ == lowercase_of(s@),
        ascii_without_capitals(s@) ==> r@ == s@,
        all_ascii(s@) ==> r@ == ascii_lower_seq(s@),
        forall|k: int| #[trigger] ascii_comma_tail(s@, k)
            ==> r@ == lowercase_of(s@.take(k)) + ascii_lower_seq(s@.skip(k)),
{
    s.to_lowercase()
}

/// ASCII uppercase of one character: `a`..`z` map to `A`..`Z`.
pub open spec fn ascii_upper(c: char) -> char {
    if 'a' <= c && c <= 'z' {
        ((c as u32) - 32) as char
    } else {
        c
    }
}

/// ASCII uppercase of every character of `s`.
pub open spec fn ascii_upper_seq(s: Seq<char>) -> Seq<char> {
    s.map_values(|c: char| ascii_upper(c))
}

/// Uppercase of `s`: the ASCII uppercase for an ASCII string, otherwise
/// what `str::to_uppercase` gives.
pub open spec fn upper_of(s: Seq<char>) -> Seq<char> {
    if all_ascii(s) {
        ascii_upper_seq(s)
    } else {
        uppercase_of(s)
    }
}

/// Calls `str::to_uppercase`; its result depends on the characters alone,
/// and is named `uppercase_of`. As documented, on an ASCII string it equals
/// `to_ascii_uppercase`: only `a`..`z` change.
#[verifier::external_body]
pub(crate) fn to_uppercase(s: &str) -> (r: String)
    ensures
        r@ == uppercase_of(s@),
        all_ascii(s@) ==> r@ == ascii_upper_seq(s@),
{
    s.to_uppercase()
}

/// `n` occurs in `h` at position `i`.
pub open spec fn occurs_at(h: Seq<char>, n: Seq<char>, i: int) -> bool {
    0 <= i && i + n.len() <= h.len() && h.subrange(i, i + n.len()) == n
}

/// `n` occurs somewhere in `h` (the empty sequence occurs everywhere).
pub open spec fn seq_contains(h: Seq<char>, n: Seq<char>) -> bool {
    exists|i: int| occurs_at(h, n, i)
}

/// `h` starts with `n`.
pub open spec fn seq_starts_with(h: Seq<char>, n: Seq<char>) -> bool {
    n.len() <= h.len() && h.subrange(0, n.len() as int) == n
}

/// `h` ends with `n`.
pub open spec fn seq_ends_with(h: Seq<char>, n: Seq<char>) -> bool {
    n.len() <= h.len() && h.subrange(h.len() - n.len(), h.len() as int) == n
}

/// Whether `n` occurs in `h` at position `i`.
pub fn occurs_at_exec(h: &[char], n: &[char], i: usize) -> (r: bool)
    ensures
        r == occurs_at(h@, n@, i as int),
{
    if n.len() > h.len() || i > h.len() - n.len() {
        return false;
    }
    let mut j: usize = 0;
    while j < n.len()
        invariant
            i + n.len() <= h.len(),
            j <= n.len(),
            forall|k: int| 0 <= k < j ==> h@[i + k] == n@[k],
        decreases n.len() - j,
    {
        if h[i + j] != n[j] {
            assert(h@.subrange(i as int, i + n.len())[j as int] != n@[j as int]);
            return false;
        }
        j += 1;
    }
    assert(h@.subrange(i as int, i + n.len()) =~= n@);
    true
}

/// The first position at which `n` occurs in `h`, if any.
pub fn find_chars(h: &[char], n: &[char]) -> (r: Option<usize>)
    ensures
        match r {
            Some(i) => occurs_at(h@, n@, i as int) && forall|k: int| 0 <= k < i ==> !occurs_at(h@, n@, k),
            None => !seq_contains(h@, n@),
        },
{
    if n.len() > h.len() {
        return None;
    }
    let lim = h.len() - n.len();
    let mut i: usize = 0;
    loop
        invariant
            n.len() <= h.len(),
            lim == h.len() - n.len(),
            i <= lim,
            forall|k: int| 0 <= k < i ==> !occurs_at(h@, n@, k),
        decreases lim - i,
    {
        if occurs_at_exec(h, n, i) {
            return Some(i);
        }
        if i == lim {
            return None;
        }
        i += 1;
    }
}

/// Whether `n` occurs in `h`.
pub fn contains_chars(h: &[char], n: &[char]) -> (r: bool)
    ensures
        r == seq_contains(h@, n@),
{
    match find_chars(h, n) {
        Some(i) => true,
        None => false,
    }
}

/// Whether `h` starts with `n`.
pub fn starts_with_chars(h: &[char], n: &[char]) -> (r: bool)
    ensures
        r == seq_starts_with(h@, n@),
{
    let r = occurs_at_exec(h, n, 0);
    proof {
        if r {
            assert(h@.subrange(0, n@.len() as int) == n@);
        }
    }
    r
}

/// Whether `h` ends with `n`.
pub fn ends_with_chars(h: &[char], n: &[char]) -> (r: bool)
    ensures
        r == seq_ends_with(h@, n@),
{
    if n.len() > h.len() {
        return false;
    }
    occurs_at_exec(h, n, h.len() - n.len())
}

/// Whether two character sequences are equal.
pub fn eq_chars(a: &[char], b: &[char]) -> (r: bool)
    ensures
        r == (a@ == b@),
{
    if a.len() != b.len() {
        return false;
    }
    let r = occurs_at_exec(a, b, 0);
    proof {
        if r {
            assert(a@.subrange(0, b@.len() as int) == b@);
            assert(a@ =~= a@.subrange(0, a@.len() as int));
        } else {
            assert(a@.subrange(0, b@.len() as int) =~= a@);
        }
    }
    r
}

/// Whether a string equals a literal.
pub fn str_is(s: &str, lit: &str) -> (r: bool)
    ensures
        r == (s@ == lit@),
{
    let a = chars_of(s);
    let b = chars_of(lit);
    eq_chars(a.as_slice(), b.as_slice())
}

} // verus!

verus! {

/// Unicode `White_Space`, the set that `char::is_whitespace` tests.
pub open spec fn is_ws(c: char) -> bool {
    let u = c as u32;
    (0x9 <= u && u <= 0xd) || u == 0x20 || u == 0x85 || u == 0xa0 || u == 0x1680
        || (0x2000 <= u && u <= 0x200a) || u == 0x2028 || u == 0x2029 || u == 0x202f
        || u == 0x205f || u == 0x3000
}

/// Whether `c` is whitespace.
pub fn is_ws_exec(c: char) -> (r: bool)
    ensures
        r == is_ws(c),
{
    let u = c as u32;
    (0x9 <= u && u <= 0xd) || u == 0x20 || u == 0x85 || u == 0xa0 || u == 0x1680
        || (0x2000 <= u && u <= 0x200a) || u == 0x2028 || u == 0x2029 || u == 0x202f
        || u == 0x205f || u == 0x3000
}

/// `s` without its leading whitespace.
pub open spec fn trim_start(s: Seq<char>) -> Seq<char>
    decreases s.len(),
{
    if s.len() > 0 && is_ws(s[0]) {
        trim_start(s.drop_first())
    } else {
        s
    }
}

/// `s` without its trailing whitespace.
pub open spec fn trim_end(s: Seq<char>) -> Seq<char>
    decreases s.len(),
{
    if s.len() > 0 && is_ws(s.last()) {
        trim_end(s.drop_last())
    } else {
        s
    }
}

/// `s` without leading and trailing whitespace (what `str::trim` gives).
pub open spec fn trim(s: Seq<char>) -> Seq<char> {
    trim_end(trim_start(s))
}

proof fn lemma_trim_start_skip(s: Seq<char>, i: int)
    requires
        0 <= i <= s.len(),
        forall|k: int| 0 <= k < i ==> is_ws(s[k]),
    ensures
        trim_start(s) == trim_start(s.skip(i)),
    decreases i,
{
    if i > 0 {
        assert(s.drop_first().skip(i - 1) =~= s.skip(i));
        lemma_trim_start_skip(s.drop_first(), i - 1);
    } else {
        assert(s.skip(0) =~= s);
    }
}

proof fn lemma_trim_end_take(s: Seq<char>, j: int)
    requires
        0 <= j <= s.len(),
        forall|k: int| j <= k < s.len() ==> is_ws(s[k]),
    ensures
        trim_end(s) == trim_end(s.take(j)),
    decreases s.len() - j,
{
    if j < s.len() {
        assert(s.drop_last().take(j) =~= s.take(j));
        lemma_trim_end_take(s.drop_last(), j);
    } else {
        assert(s.take(j) =~= s);
    }
}

/// `s` with leading and trailing whitespace removed.
pub fn trim_chars(s: &[char]) -> (r: Vec<char>)
    ensures
        r@ == trim(s@),
{
    let mut i: usize = 0;
    while i < s.len() && is_ws_exec(s[i])
        invariant
            i <= s.len(),
            forall|k: int| 0 <= k < i ==> is_ws(s@[k]),
        decreases s.len() - i,
    {
        i += 1;
    }
    proof {
        lemma_trim_start_skip(s@, i as int);
    }
    let mut j: usize = s.len();
    while j > i && is_ws_exec(s[j - 1])
        invariant
            i <= j <= s.len(),
            forall|k: int| j <= k < s.len() ==> is_ws(s@[k]),
        decreases j,
    {
        j -= 1;
    }
    let ghost t = s@.skip(i as int);
    proof {
        assert forall|k: int| j - i <= k < t.len() implies is_ws(t[k]) by {
            assert(t[k] == s@[k + i]);
        }
        lemma_trim_end_take(t, j - i);
        if i < j {
            assert(t.take(j - i).len() > 0);
            assert(t.take(j - i).last() == s@[j - 1]);
        }
        assert(trim_end(t.take(j - i)) == t.take(j - i));
    }
    let mut r: Vec<char> = Vec::new();
    let mut k: usize = i;
    while k < j
        invariant
            i <= k <= j <= s.len(),
            r@ == s@.subrange(i as int, k as int),
        decreases j - k,
    {
        r.push(s[k]);
        k += 1;
        assert(r@ =~= s@.subrange(i as int, k as int));
    }
    assert(r@ =~= t.take(j - i));
    r
}

/// `s` with every non-overlapping occurrence of `p`, scanning left to
/// right, replaced by `q` (what `str::replace` gives for a non-empty `p`).
pub open spec fn replace_all(s: Seq<char>, p: Seq<char>, q: Seq<char>) -> Seq<char>
    decreases s.len(),
{
    if p.len() == 0 || s.len() < p.len() {
        s
    } else if s.subrange(0, p.len() as int) == p {
        q + replace_all(s.skip(p.len() as int), p, q)
    } else {
        seq![s[0]] + replace_all(s.drop_first(), p, q)
    }
}

/// Replace every occurrence of `p` in `s` by `q`.
pub fn replace_chars(s: &[char], p: &[char], q: &[char]) -> (r: Vec<char>)
    requires
        p.len() > 0,
    ensures
        r@ == replace_all(s@, p@, q@),
{
    let mut out: Vec<char> = Vec::new();
    let mut i: usize = 0;
    assert(s@.skip(0) =~= s@);
    while i < s.len()
        invariant
            p@.len() > 0,
            i <= s.len(),
            out@ + replace_all(s@.skip(i as int), p@, q@) == replace_all(s@, p@, q@),
        decreases s.len() - i,
    {
        let ghost rest = s@.skip(i as int);
        if p.len() <= s.len() && i <= s.len() - p.len() && occurs_at_exec(s, p, i) {
            proof {
                assert(rest.subrange(0, p@.len() as int) =~= s@.subrange(i as int, i + p@.len()));
                assert(rest.skip(p@.len() as int) =~= s@.skip(i + p@.len()));
            }
            let mut k: usize = 0;
            let ghost out0 = out@;
            while k < q.len()
                invariant
                    k <= q.len(),
                    out@ == out0 + q@.take(k as int),
                decreases q.len() - k,
            {
                out.push(q[k]);
                k += 1;
                assert(out@ =~= out0 + q@.take(k as int));
            }
            assert(q@.take(q@.len() as int) =~= q@);
            assert(out@ =~= out0 + q@);
            assert((out0 + q@) + replace_all(s@.skip(i + p@.len()), p@, q@) =~= out0 + (q@ + replace_all(rest.skip(p@.len() as int), p@, q@)));
            i += p.len();
        } else {
            proof {
                if rest.len() >= p@.len() {
                    assert(rest.subrange(0, p@.len() as int) =~= s@.subrange(i as int, i + p@.len()));
                }
                assert(rest.drop_first() =~= s@.skip(i + 1));
            }
            let ghost out0 = out@;
            out.push(s[i]);
            assert((out0 + seq![s@[i as int]]) + replace_all(s@.skip(i + 1), p@, q@) =~= out0 + (seq![rest[0]] + replace_all(rest.drop_first(), p@, q@)));
            i += 1;
        }
    }
    assert(s@.skip(i as int) =~= Seq::<char>::empty());
    assert(out@ + Seq::<char>::empty() =~= out@);
    out
}

} // verus!

verus! {

/// Number of leading non-whitespace characters of `s`.
pub open spec fn word_len(s: Seq<char>) -> nat
    decreases s.len(),
{
    if s.len() == 0 || is_ws(s[0]) {
        0
    } else {
        1 + word_len(s.drop_first())
    }
}

/// A whitespace-separated word of `s` starts at position `j`.
pub open spec fn token_start(s: Seq<char>, j: int) -> bool {
    0 <= j < s.len() && !is_ws(s[j]) && (j == 0 || is_ws(s[j - 1]))
}

/// The whitespace-separated word of `s` that starts at `j`.
pub open spec fn token_at(s: Seq<char>, j: int) -> Seq<char> {
    s.subrange(j, j + word_len(s.skip(j)))
}

/// `s` holds at least one whitespace-separated word.
pub open spec fn has_token(s: Seq<char>) -> bool {
    exists|j: int| token_start(s, j)
}

/// Every whitespace-separated word of `n` occurs in `h`.
pub open spec fn all_tokens_in(h: Seq<char>, n: Seq<char>) -> bool {
    forall|j: int| token_start(n, j) ==> seq_contains(h, #[trigger] token_at(n, j))
}

proof fn lemma_word_len(s: Seq<char>, j: int, k: int)
    requires
        0 <= j <= k <= s.len(),
        forall|m: int| j <= m < k ==> !is_ws(s[m]),
        k == s.len() || is_ws(s[k]),
    ensures
        word_len(s.skip(j)) == k - j,
        j + word_len(s.skip(j)) <= s.len(),
    decreases k - j,
{
    if j < k {
        lemma_word_len(s, j + 1, k);
        assert(s.skip(j).drop_first() =~= s.skip(j + 1));
    } else {
        if k < s.len() {
            assert(s.skip(j)[0] == s[k]);
        }
    }
}

/// Every whitespace-separated word of `n` occurs in `h`; also says
/// whether `n` has any word at all.
pub fn tokens_in(h: &[char], n: &[char]) -> (r: (bool, bool))
    ensures
        r.0 == all_tokens_in(h@, n@),
        r.1 == has_token(n@),
{
    let mut j: usize = 0;
    let mut any = false;
    while j < n.len()
        invariant
            j <= n.len(),
            forall|m: int| 0 <= m < j ==> (token_start(n@, m) ==> seq_contains(h@, token_at(n@, m))),
            any == exists|m: int| 0 <= m < j && token_start(n@, m),
        decreases n.len() - j,
    {
        let start = !is_ws_exec(n[j]) && (j == 0 || is_ws_exec(n[j - 1]));
        if start {
            let mut k: usize = j;
            while k < n.len() && !is_ws_exec(n[k])
                invariant
                    j <= k <= n.len(),
                    forall|m: int| j <= m < k ==> !is_ws(n@[m]),
                decreases n.len() - k,
            {
                k += 1;
            }
            proof {
                lemma_word_len(n@, j as int, k as int);
            }
            let mut w: Vec<char> = Vec::new();
            let mut m: usize = j;
            while m < k
                invariant
                    j <= m <= k <= n.len(),
                    w@ == n@.subrange(j as int, m as int),
                decreases k - m,
            {
                w.push(n[m]);
                m += 1;
                assert(w@ =~= n@.subrange(j as int, m as int));
            }
            assert(w@ == token_at(n@, j as int));
            if !contains_chars(h, w.as_slice()) {
                assert(token_start(n@, j as int));
                return (false, true);
            }
            any = true;
        }
        proof {
            assert(start == token_start(n@, j as int));
            if start {
                assert(token_start(n@, j as int));
            }
        }
        j += 1;
    }
    (true, any)
}

/// `c` is an ASCII digit.
pub open spec fn is_digit(c: char) -> bool {
    '0' <= c && c <= '9'
}

/// `s` holds an ASCII digit.
pub open spec fn has_digit(s: Seq<char>) -> bool {
    exists|i: int| 0 <= i < s.len() && is_digit(s[i])
}

/// Whether `s` holds an ASCII digit.
pub fn has_digit_exec(s: &[char]) -> (r: bool)
    ensures
        r == has_digit(s@),
{
    let mut i: usize = 0;
    while i < s.len()
        invariant
            i <= s.len(),
            forall|k: int| 0 <= k < i ==> !is_digit(s@[k]),
        decreases s.len() - i,
    {
        if '0' <= s[i] && s[i] <= '9' {
            return true;
        }
        i += 1;
    }
    false
}

/// Append all of `b` to `a`.
pub fn push_all(a: &mut Vec<char>, b: &[char])
    ensures
        final(a)@ == old(a)@ + b@,
{
    let mut i: usize = 0;
    while i < b.len()
        invariant
            i <= b.len(),
            a@ == old(a)@ + b@.take(i as int),
        decreases b.len() - i,
    {
        a.push(b[i]);
        i += 1;
        assert(a@ =~= old(a)@ + b@.take(i as int));
    }
    assert(b@.take(b@.len() as int) =~= b@);
}

/// `a` followed by `b`.
pub fn concat_chars(a: &[char], b: &[char]) -> (r: Vec<char>)
    ensures
        r@ == a@ + b@,
{
    let mut r: Vec<char> = Vec::new();
    push_all(&mut r, a);
    push_all(&mut r, b);
    assert(Seq::<char>::empty() + a@ + b@ =~= a@ + b@);
    r
}

} // verus!

verus! {

/// The elements of `parts` separated by `sep`.
pub open spec fn join(parts: Seq<Seq<char>>, sep: Seq<char>) -> Seq<char>
    decreases parts.len(),
{
    if parts.len() == 0 {
        Seq::empty()
    } else if parts.len() == 1 {
        parts[0]
    } else {
        join(parts.drop_last(), sep) + sep + parts.last()
    }
}

/// The character views of a list of character vectors.
pub open spec fn views(v: Seq<Vec<char>>) -> Seq<Seq<char>> {
    v.map_values(|x: Vec<char>| x@)
}

/// `parts` joined with `sep`.
pub fn join_chars(parts: &Vec<Vec<char>>, sep: &[char]) -> (r: Vec<char>)
    ensures
        r@ == join(views(parts@), sep@),
{
    let mut r: Vec<char> = Vec::new();
    let mut i: usize = 0;
    while i < parts.len()
        invariant
            i <= parts.len(),
            r@ == join(views(parts@).take(i as int), sep@),
        decreases parts.len() - i,
    {
        let ghost dv = views(parts@);
        assert(dv.take(i + 1).drop_last() =~= dv.take(i as int));
        assert(dv[i as int] == parts[i as int]@);
        if i > 0 {
            push_all(&mut r, sep);
        } else {
            assert(r@ =~= Seq::<char>::empty());
        }
        push_all(&mut r, parts[i].as_slice());
        i += 1;
        proof {
            if i == 1 {
                assert(r@ =~= dv.take(1)[0]);
            }
        }
    }
    assert(views(parts@).take(parts.len() as int) =~= views(parts@));
    r
}

/// Decimal digits of `n`.
pub open spec fn dec(n: nat) -> Seq<char>
    decreases n,
{
    if n < 10 {
        seq![digit_char(n)]
    } else {
        dec(n / 10) + seq![digit_char(n % 10)]
    }
}

/// The ASCII digit for `d < 10`.
pub open spec fn digit_char(d: nat) -> char {
    if d == 0 { '0' } else if d == 1 { '1' } else if d == 2 { '2' } else if d == 3 { '3' }
    else if d == 4 { '4' } else if d == 5 { '5' } else if d == 6 { '6' } else if d == 7 { '7' }
    else if d == 8 { '8' } else { '9' }
}

fn digit_char_exec(d: u32) -> (c: char)
    requires
        d < 10,
    ensures
        c == digit_char(d as nat),
{
    if d == 0 { '0' } else if d == 1 { '1' } else if d == 2 { '2' } else if d == 3 { '3' }
    else if d == 4 { '4' } else if d == 5 { '5' } else if d == 6 { '6' } else if d == 7 { '7' }
    else if d == 8 { '8' } else { '9' }
}

/// Decimal representation of `n` (what `u64::to_string` gives).
pub fn dec_u64_chars(n: u64) -> (r: Vec<char>)
    ensures
        r@ == dec(n as nat),
    decreases n,
{
    if n < 10 {
        let mut v: Vec<char> = Vec::new();
        v.push(digit_char_exec(n as u32));
        assert(v@ =~= seq![digit_char(n as nat)]);
        v
    } else {
        let mut v = dec_u64_chars(n / 10);
        v.push(digit_char_exec((n % 10) as u32));
        v
    }
}

/// Decimal representation of an integer, with `-` before a negative one.
pub open spec fn signed_dec(i: int) -> Seq<char> {
    if i < 0 {
        seq!['-'] + dec((-i) as nat)
    } else {
        dec(i as nat)
    }
}

/// Decimal representation of `n` (what `i64::to_string` gives).
pub fn dec_i64_chars(n: i64) -> (r: Vec<char>)
    ensures
        r@ == signed_dec(n as int),
{
    if n < 0 {
        let magnitude: u64 = (0i128 - (n as i128)) as u64;
        let digits = dec_u64_chars(magnitude);
        let mut v: Vec<char> = Vec::new();
        v.push('-');
        push_all(&mut v, digits.as_slice());
        assert(v@ =~= seq!['-'] + dec((-n) as nat));
        v
    } else {
        dec_u64_chars(n as u64)
    }
}

/// Decimal representation of `n` (what `u32::to_string` gives).
pub fn dec_chars(n: u32) -> (r: Vec<char>)
    ensures
        r@ == dec(n as nat),
    decreases n,
{
    if n < 10 {
        let mut v: Vec<char> = Vec::new();
        v.push(digit_char_exec(n));
        assert(v@ =~= seq![digit_char(n as nat)]);
        v
    } else {
        let mut v = dec_chars(n / 10);
        v.push(digit_char_exec(n % 10));
        v
    }
}

/// The value paired with the first occurrence of `key` in `pairs`.
pub open spec fn lookup(pairs: Seq<(String, String)>, key: Seq<char>) -> Option<Seq<char>>
    decreases pairs.len(),
{
    if pairs.len() == 0 {
        None
    } else if pairs[0].0@ == key {
        Some(pairs[0].1@)
    } else {
        lookup(pairs.drop_first(), key)
    }
}

proof fn lemma_lookup_skip(pairs: Seq<(String, String)>, key: Seq<char>, i: int)
    requires
        0 <= i <= pairs.len(),
        forall|k: int| 0 <= k < i ==> pairs[k].0@ != key,
    ensures
        lookup(pairs, key) == lookup(pairs.skip(i), key),
    decreases i,
{
    if i > 0 {
        assert(pairs.drop_first().skip(i - 1) =~= pairs.skip(i));
        lemma_lookup_skip(pairs.drop_first(), key, i - 1);
    } else {
        assert(pairs.skip(0) =~= pairs);
    }
}

/// The value paired with the first occurrence of `key`.
pub fn lookup_exec(pairs: &Vec<(String, String)>, key: &[char]) -> (r: Option<Vec<char>>)
    ensures
        match r {
            Some(v) => lookup(pairs@, key@) == Some(v@),
            None => lookup(pairs@, key@) is None,
        },
{
    let mut i: usize = 0;
    while i < pairs.len()
        invariant
            i <= pairs.len(),
            forall|k: int| 0 <= k < i ==> pairs@[k].0@ != key@,
        decreases pairs.len() - i,
    {
        let k = chars_of(pairs[i].0.as_str());
        if eq_chars(k.as_slice(), key) {
            proof {
                lemma_lookup_skip(pairs@, key@, i as int);
                assert(pairs@.skip(i as int)[0] == pairs@[i as int]);
            }
            return Some(chars_of(pairs[i].1.as_str()));
        }
        i += 1;
    }
    proof {
        lemma_lookup_skip(pairs@, key@, i as int);
    }
    None
}

/// Some word of `pats` occurs in `h`.
pub open spec fn any_occurs(h: Seq<char>, pats: Seq<Seq<char>>) -> bool {
    exists|i: int| 0 <= i < pats.len() && seq_contains(h, pats[i])
}

/// Whether some word of `pats` occurs in `h`.
pub fn any_occurs_exec(h: &[char], pats: &Vec<&str>) -> (r: bool)
    ensures
        r == any_occurs(h@, pats@.map_values(|p: &str| p@)),
{
    let ghost ps = pats@.map_values(|p: &str| p@);
    let mut i: usize = 0;
    while i < pats.len()
        invariant
            i <= pats.len(),
            ps == pats@.map_values(|p: &str| p@),
            forall|k: int| 0 <= k < i ==> !seq_contains(h@, ps[k]),
        decreases pats.len() - i,
    {
        let p = chars_of(pats[i]);
        if contains_chars(h, p.as_slice()) {
            assert(seq_contains(h@, ps[i as int]));
            return true;
        }
        i += 1;
    }
    false
}

} // verus!

verus! {

/// What `char::to_uppercase` yields for `c` (one or more characters).
pub uninterp spec fn uppercase_char_of(c: char) -> Seq<char>;

/// Uppercase of one character: its ASCII uppercase for an ASCII character,
/// otherwise what `char::to_uppercase` yields.
pub open spec fn upper_char_of(c: char) -> Seq<char> {
    if (c as u32) < 0x80 {
        seq![ascii_upper(c)]
    } else {
        uppercase_char_of(c)
    }
}

/// Calls `char::to_uppercase` and collects the characters it yields; they
/// depend on `c` alone and are named `uppercase_char_of`. As documented, an
/// ASCII character yields its ASCII uppercase alone.
#[verifier::external_body]
pub(crate) fn char_to_uppercase(c: char) -> (r: Vec<char>)
    ensures
        r@ == uppercase_char_of(c),
        (c as u32) < 0x80 ==> r@ == seq![ascii_upper(c)],
{
    c.to_uppercase().collect()
}

/// Lowercase of a character sequence (see `lowercase_of`).
pub fn lower_chars(s: &[char]) -> (r: Vec<char>)
    ensures
        r@ == lowercase_of(s@),
        ascii_without_capitals(s@) ==> r@ == s@,
        all_ascii(s@) ==> r@ == ascii_lower_seq(s@),
        r@ == lower_of(s@),
        forall|k: int| #[trigger] ascii_comma_tail(s@, k)
            ==> r@ == lowercase_of(s@.take(k)) + ascii_lower_seq(s@.skip(k)),
{
    let st = string_of(s);
    let l = to_lowercase(st.as_str());
    chars_of(l.as_str())
}

/// Uppercase of a character sequence (see `uppercase_of`).
pub fn upper_chars(s: &[char]) -> (r: Vec<char>)
    ensures
        r@ == uppercase_of(s@),
        all_ascii(s@) ==> r@ == ascii_upper_seq(s@),
        r@ == upper_of(s@),
{
    let st = string_of(s);
    let u = to_uppercase(st.as_str());
    chars_of(u.as_str())
}

} // verus!

verus! {

/// Number of bytes `c` takes in UTF-8 (what `char::len_utf8` gives).
pub open spec fn utf8_len(c: char) -> nat {
    let u = c as u32;
    if u < 0x80 { 1 } else if u < 0x800 { 2 } else if u < 0x10000 { 3 } else { 4 }
}

/// Number of bytes `s` takes in UTF-8 (what `str::len` gives).
pub open spec fn byte_len(s: Seq<char>) -> nat
    decreases s.len(),
{
    if s.len() == 0 { 0 } else { byte_len(s.drop_last()) + utf8_len(s.last()) }
}

/// The character index at which byte offset `b` of `s` falls on a
/// character boundary, if it does.
pub open spec fn boundary_index(s: Seq<char>, b: int) -> Option<int>
    decreases s.len(),
{
    if b == 0 {
        Some(0)
    } else if s.len() == 0 || b < utf8_len(s[0]) {
        None
    } else {
        match boundary_index(s.drop_first(), b - utf8_len(s[0])) {
            Some(k) => Some(k + 1),
            None => None,
        }
    }
}

fn utf8_len_exec(c: char) -> (r: u128)
    ensures
        r == utf8_len(c),
{
    let u = c as u32;
    if u < 0x80 { 1 } else if u < 0x800 { 2 } else if u < 0x10000 { 3 } else { 4 }
}

/// Byte length of a character sequence.
pub fn byte_len_exec(s: &[char]) -> (r: u128)
    ensures
        r == byte_len(s@),
        r <= 4 * s.len(),
{
    let mut total: u128 = 0;
    let mut i: usize = 0;
    while i < s.len()
        invariant
            i <= s.len(),
            total == byte_len(s@.take(i as int)),
            total <= 4 * i,
        decreases s.len() - i,
    {
        assert(s@.take(i + 1).drop_last() =~= s@.take(i as int));
        total = total + utf8_len_exec(s[i]);
        i += 1;
    }
    assert(s@.take(s.len() as int) =~= s@);
    total
}

/// The character index of byte offset `b` in `s`, when it is a boundary.
pub fn boundary_index_exec(s: &[char], b: u128) -> (r: Option<usize>)
    ensures
        match r {
            Some(k) => boundary_index(s@, b as int) == Some(k as int),
            None => boundary_index(s@, b as int) is None,
        },
{
    let mut i: usize = 0;
    let mut rem: u128 = b;
    assert(s@.skip(0) =~= s@);
    while i < s.len() && rem > 0 && rem >= utf8_len_exec(s[i])
        invariant
            i <= s.len(),
            rem <= b,
            boundary_index(s@, b as int) == match boundary_index(s@.skip(i as int), rem as int) {
                Some(k) => Some(k + i),
                None => None::<int>,
            },
        decreases s.len() - i,
    {
        assert(s@.skip(i as int).drop_first() =~= s@.skip(i + 1));
        rem = rem - utf8_len_exec(s[i]);
        i += 1;
    }
    if rem == 0 {
        Some(i)
    } else {
        None
    }
}

/// `a` comes before `b` in the order of `String`'s `Ord`: lexicographic
/// on UTF-8 bytes, which is lexicographic on code points.
pub open spec fn seq_less(a: Seq<char>, b: Seq<char>) -> bool
    decreases a.len(),
{
    if a.len() == 0 {
        b.len() > 0
    } else if b.len() == 0 {
        false
    } else if a[0] != b[0] {
        (a[0] as int) < (b[0] as int)
    } else {
        seq_less(a.drop_first(), b.drop_first())
    }
}

/// No sequence comes before itself.
pub proof fn lemma_seq_less_irreflexive(a: Seq<char>)
    ensures
        !seq_less(a, a),
    decreases a.len(),
{
    if a.len() > 0 {
        lemma_seq_less_irreflexive(a.drop_first());
    }
}

/// The order is transitive.
pub proof fn lemma_seq_less_transitive(a: Seq<char>, b: Seq<char>, c: Seq<char>)
    requires
        seq_less(a, b),
        seq_less(b, c),
    ensures
        seq_less(a, c),
    decreases a.len(),
{
    if a.len() > 0 && b.len() > 0 && c.len() > 0 && a[0] == b[0] && b[0] == c[0] {
        lemma_seq_less_transitive(a.drop_first(), b.drop_first(), c.drop_first());
    }
}

/// Two different sequences are ordered one way or the other.
pub proof fn lemma_seq_less_total(a: Seq<char>, b: Seq<char>)
    requires
        a != b,
    ensures
        seq_less(a, b) || seq_less(b, a),
    decreases a.len(),
{
    if a.len() == 0 && b.len() == 0 {
        assert(a =~= b);
    } else if a.len() > 0 && b.len() > 0 && a[0] == b[0] {
        if a.drop_first() == b.drop_first() {
            assert(a =~= seq![a[0]] + a.drop_first());
            assert(b =~= seq![b[0]] + b.drop_first());
        }
        lemma_seq_less_total(a.drop_first(), b.drop_first());
    }
}

/// Compares two character sequences in `String` order.
pub fn less_chars(a: &[char], b: &[char]) -> (r: bool)
    ensures
        r == seq_less(a@, b@),
{
    let mut i: usize = 0;
    assert(a@.skip(0) =~= a@);
    assert(b@.skip(0) =~= b@);
    while i < a.len() && i < b.len() && a[i] == b[i]
        invariant
            i <= a.len(),
            i <= b.len(),
            seq_less(a@, b@) == seq_less(a@.skip(i as int), b@.skip(i as int)),
        decreases a.len() - i,
    {
        assert(a@.skip(i as int).drop_first() =~= a@.skip(i + 1));
        assert(b@.skip(i as int).drop_first() =~= b@.skip(i + 1));
        i = i + 1;
    }
    let ghost sa = a@.skip(i as int);
    let ghost sb = b@.skip(i as int);
    assert(sa.len() == a.len() - i && sb.len() == b.len() - i);
    if i == a.len() {
        i < b.len()
    } else if i == b.len() {
        false
    } else {
        assert(sa[0] == a@[i as int] && sb[0] == b@[i as int]);
        a[i] < b[i]
    }
}

/// `s` without the copies of `c` at its end (`str::trim_end_matches`).
pub open spec fn strip_trailing(s: Seq<char>, c: char) -> Seq<char>
    decreases s.len(),
{
    if s.len() > 0 && s.last() == c {
        strip_trailing(s.drop_last(), c)
    } else {
        s
    }
}

/// `s` without the copies of `c` at its end.
pub fn trim_end_char(s: &[char], c: char) -> (r: Vec<char>)
    ensures
        r@ == strip_trailing(s@, c),
{
    let mut end: usize = s.len();
    assert(s@.take(s.len() as int) =~= s@);
    while end > 0 && s[end - 1] == c
        invariant
            end <= s.len(),
            strip_trailing(s@, c) == strip_trailing(s@.take(end as int), c),
        decreases end,
    {
        assert(s@.take(end as int).drop_last() =~= s@.take(end - 1));
        end = end - 1;
    }
    let mut r: Vec<char> = Vec::new();
    let mut k: usize = 0;
    while k < end
        invariant
            k <= end <= s.len(),
            r@ =~= s@.take(k as int),
        decreases end - k,
    {
        r.push(s[k]);
        k = k + 1;
    }
    r
}

/// A copy of a list of strings.
pub fn clone_strings(v: &Vec<String>) -> (r: Vec<String>)
    ensures
        r@ == v@,
{
    let mut r: Vec<String> = Vec::new();
    let mut i: usize = 0;
    while i < v.len()
        invariant
            i <= v.len(),
            r@ =~= v@.take(i as int),
        decreases v.len() - i,
    {
        r.push(v[i].clone());
        i = i + 1;
    }
    r
}

/// Some string of `ids` is `id`.
pub open spec fn listed(ids: Seq<String>, id: Seq<char>) -> bool {
    exists|j: int| 0 <= j < ids.len() && ids[j]@ == id
}

/// Whether some string of `ids` is `id`.
pub fn is_listed(ids: &Vec<String>, id: &str) -> (r: bool)
    ensures
        r == listed(ids@, id@),
{
    let want = chars_of(id);
    let mut i: usize = 0;
    while i < ids.len()
        invariant
            i <= ids.len(),
            want@ == id@,
            forall|j: int| 0 <= j < i ==> ids@[j]@ != id@,
        decreases ids.len() - i,
    {
        let here = chars_of(ids[i].as_str());
        if eq_chars(here.as_slice(), want.as_slice()) {
            return true;
        }
        i = i + 1;
    }
    false
}

/// Replacing a pattern that does not occur changes nothing.
pub proof fn lemma_replace_all_absent(s: Seq<char>, p: Seq<char>, q: Seq<char>)
    requires
        !seq_contains(s, p),
    ensures
        replace_all(s, p, q) == s,
    decreases s.len(),
{
    if p.len() == 0 || s.len() < p.len() {
    } else {
        assert(!occurs_at(s, p, 0));
        let t = s.drop_first();
        assert forall|i: int| !occurs_at(t, p, i) by {
            if occurs_at(t, p, i) {
                assert(s.subrange(i + 1, i + 1 + p.len()) =~= t.subrange(i, i + p.len()));
                assert(occurs_at(s, p, i + 1));
            }
        }
        lemma_replace_all_absent(t, p, q);
        assert(s =~= seq![s[0]] + t);
    }
}


/// No pair has `key`, so looking it up finds nothing.
pub proof fn lemma_lookup_absent(pairs: Seq<(String, String)>, key: Seq<char>)
    requires
        forall|k: int| 0 <= k < pairs.len() ==> pairs[k].0@ != key,
    ensures
        lookup(pairs, key) is None,
{
    lemma_lookup_skip(pairs, key, pairs.len() as int);
    assert(pairs.skip(pairs.len() as int) =~= Seq::<(String, String)>::empty());
}

/// A prefix that never holds the pattern's first character passes through
/// a replacement untouched.
pub proof fn lemma_replace_all_prefix(a: Seq<char>, b: Seq<char>, p: Seq<char>, q: Seq<char>)
    requires
        p.len() > 0,
        forall|i: int| 0 <= i < a.len() ==> a[i] != p[0],
    ensures
        replace_all(a + b, p, q) == a + replace_all(b, p, q),
    decreases a.len(),
{
    let s = a + b;
    if a.len() == 0 {
        assert(s =~= b);
        assert(a + replace_all(b, p, q) =~= replace_all(b, p, q));
    } else if s.len() < p.len() {
        assert(b.len() < p.len());
    } else {
        assert(s.subrange(0, p.len() as int)[0] == a[0]);
        assert(s.subrange(0, p.len() as int) != p);
        let a2 = a.drop_first();
        assert(s.drop_first() =~= a2 + b);
        lemma_replace_all_prefix(a2, b, p, q);
        assert(seq![a[0]] + (a2 + replace_all(b, p, q)) =~= a + replace_all(b, p, q));
    }
}

/// `trim_start(s)` drops a prefix of `s`, and what is left does not start
/// with whitespace.
pub proof fn lemma_trim_start_shape(s: Seq<char>) -> (i: int)
    ensures
        0 <= i <= s.len(),
        trim_start(s) == s.skip(i),
        trim_start(s).len() > 0 ==> !is_ws(trim_start(s)[0]),
    decreases s.len(),
{
    if s.len() > 0 && is_ws(s[0]) {
        let j = lemma_trim_start_shape(s.drop_first());
        assert(s.drop_first().skip(j) =~= s.skip(j + 1));
        j + 1
    } else {
        assert(s.skip(0) =~= s);
        0
    }
}

/// `trim_end(s)` keeps a prefix of `s`, and what is kept does not end
/// with whitespace.
pub proof fn lemma_trim_end_shape(s: Seq<char>) -> (j: int)
    ensures
        0 <= j <= s.len(),
        trim_end(s) == s.take(j),
        trim_end(s).len() > 0 ==> !is_ws(trim_end(s).last()),
    decreases s.len(),
{
    if s.len() > 0 && is_ws(s.last()) {
        let j = lemma_trim_end_shape(s.drop_last());
        assert(s.drop_last().take(j) =~= s.take(j));
        j
    } else {
        assert(s.take(s.len() as int) =~= s);
        s.len() as int
    }
}

/// Trimming keeps a contiguous piece of `s` (from `i`, of its own length),
/// and trimming again changes nothing.
pub proof fn lemma_trim_shape(s: Seq<char>) -> (i: int)
    ensures
        0 <= i && i + trim(s).len() <= s.len(),
        trim(s) == s.subrange(i, i + trim(s).len()),
        trim(trim(s)) == trim(s),
        trim(s).len() > 0 ==> !is_ws(trim(s)[0]) && !is_ws(trim(s).last()),
{
    let i = lemma_trim_start_shape(s);
    let u = trim_start(s);
    let j = lemma_trim_end_shape(u);
    let t = trim(s);
    assert(t =~= s.subrange(i, i + j));
    if t.len() > 0 {
        assert(t[0] == u[0]);
        assert(trim_start(t) == t);
        assert(trim_end(t) == t);
    } else {
        assert(trim_start(t) == t);
        assert(trim_end(t) == t);
    }
    i
}


/// Containment of character sequences is transitive.
pub proof fn lemma_contains_trans(a: Seq<char>, b: Seq<char>, c: Seq<char>)
    requires
        seq_contains(a, b),
        seq_contains(b, c),
    ensures
        seq_contains(a, c),
{
    let i = choose|i: int| occurs_at(a, b, i);
    let j = choose|j: int| occurs_at(b, c, j);
    assert(a.subrange(i + j, i + j + c.len()) =~= b.subrange(j, j + c.len()));
    assert(occurs_at(a, c, i + j));
}

/// The middle of a concatenation occurs in it.
pub proof fn lemma_contains_middle(x: Seq<char>, y: Seq<char>, z: Seq<char>)
    ensures
        seq_contains(x + y + z, y),
        seq_contains(x + y, x),
{
    assert((x + y + z).subrange(x.len() as int, (x.len() + y.len()) as int) =~= y);
    assert(occurs_at(x + y + z, y, x.len() as int));
    assert((x + y).subrange(0, x.len() as int) =~= x);
    assert(occurs_at(x + y, x, 0));
}

/// Replacing a one-character pattern by one character maps each character.
pub proof fn lemma_replace_single(s: Seq<char>, pc: char, qc: char)
    ensures
        replace_all(s, seq![pc], seq![qc]) == s.map_values(|c: char| if c == pc { qc } else { c }),
    decreases s.len(),
{
    if s.len() > 0 {
        if s.subrange(0, 1) == seq![pc] {
            assert(s[0] == s.subrange(0, 1)[0]);
            lemma_replace_single(s.skip(1), pc, qc);
            assert(s.skip(1) =~= s.drop_first());
        } else {
            assert(s.subrange(0, 1) =~= seq![s[0]]);
            lemma_replace_single(s.drop_first(), pc, qc);
        }
        assert(replace_all(s, seq![pc], seq![qc]) =~= s.map_values(|c: char| if c == pc { qc } else { c }));
    } else {
        assert(replace_all(s, seq![pc], seq![qc]) =~= s.map_values(|c: char| if c == pc { qc } else { c }));
    }
}

/// ASCII lowercase maps a concatenation piece by piece.
pub proof fn lemma_ascii_lower_concat(x: Seq<char>, y: Seq<char>)
    ensures
        ascii_lower_seq(x + y) == ascii_lower_seq(x) + ascii_lower_seq(y),
{
    assert(ascii_lower_seq(x + y) =~= ascii_lower_seq(x) + ascii_lower_seq(y));
}

/// Lowercasing the ASCII uppercase of a character gives its lowercase.
pub proof fn lemma_lower_of_upper(c: char)
    ensures
        ascii_lower(ascii_upper(c)) == ascii_lower(c),
{
    if 'a' <= c && c <= 'z' {
        assert(((c as u32) - 32) as char as u32 == (c as u32) - 32);
    }
}

/// A word of `s` never runs past its end.
pub proof fn lemma_word_len_bound(s: Seq<char>)
    ensures
        word_len(s) <= s.len(),
    decreases s.len(),
{
    if s.len() > 0 && !is_ws(s[0]) {
        lemma_word_len_bound(s.drop_first());
    }
}

/// Every word of `n` occurs in any sequence that holds `n`.
pub proof fn lemma_tokens_in_container(h: Seq<char>, n: Seq<char>)
    requires
        seq_contains(h, n),
    ensures
        all_tokens_in(h, n),
{
    assert forall|j: int| token_start(n, j) implies seq_contains(h, #[trigger] token_at(n, j)) by {
        lemma_word_len_bound(n.skip(j));
        let t = token_at(n, j);
        assert(n.subrange(j, j + t.len()) =~= t);
        assert(occurs_at(n, t, j));
        lemma_contains_trans(h, n, t);
    }
}

/// What all words of `n` occurring in `h` says holds in any sequence that
/// holds `h`.
pub proof fn lemma_tokens_in_wider(h: Seq<char>, h2: Seq<char>, n: Seq<char>)
    requires
        all_tokens_in(h, n),
        seq_contains(h2, h),
    ensures
        all_tokens_in(h2, n),
{
    assert forall|j: int| token_start(n, j) implies seq_contains(h2, #[trigger] token_at(n, j)) by {
        lemma_contains_trans(h2, h, token_at(n, j));
    }
}

/// A word of `pats` occurring in `h` occurs in any sequence that holds `h`.
pub proof fn lemma_any_occurs_wider(h: Seq<char>, h2: Seq<char>, pats: Seq<Seq<char>>)
    requires
        any_occurs(h, pats),
        seq_contains(h2, h),
    ensures
        any_occurs(h2, pats),
{
    let i = choose|i: int| 0 <= i < pats.len() && seq_contains(h, pats[i]);
    lemma_contains_trans(h2, h, pats[i]);
}

} // verus!
