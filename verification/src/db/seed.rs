//! Subject taxonomy seeding: from the raw taxonomy records to the unique
//! subjects (ordered by slug) and their sub-subjects, with the slug and
//! display-order rules the seeding uses.
use vstd::prelude::*;
use crate::text::{
    chars_of, string_of, trim, trim_chars, lower_chars, all_ascii, ascii_lower_seq, seq_less,
    less_chars, eq_chars, lemma_seq_less_transitive, lemma_seq_less_total,
    lemma_seq_less_irreflexive,
};

verus! {

/// One record of the subject taxonomy file.
pub struct SubjectJsonEntry {
    pub jenjang: Option<String>,
    pub subject: Option<String>,
    pub subject_slug: Option<String>,
    pub kelas: Option<i64>,
    pub semester: Option<i64>,
    pub bab: Option<i64>,
    pub sub_subject: Option<String>,
    pub sub_subject_slug: Option<String>,
    pub deskripsi_singkat: Option<String>,
    pub description: Option<String>,
    pub is_active: bool,
}

/// Default of a record's `is_active` flag when the file leaves it out.
pub fn return_true() -> (r: bool)
    ensures
        r,
{
    true
}

/// A unique subject extracted from the taxonomy.
pub struct SeedSubject {
    pub name: String,
    pub slug: String,
    pub description: String,
    pub jenjang: String,
}

/// A sub-subject, attached to its subject by the subject's slug.
pub struct SeedSubSubject {
    pub subject_slug: String,
    pub name: String,
    pub slug: String,
    pub description: String,
    pub kelas: i64,
    pub semester: i64,
    pub bab: i64,
}

/// The character content of a subject.
pub struct SubjectRecord {
    pub name: Seq<char>,
    pub slug: Seq<char>,
    pub description: Seq<char>,
    pub jenjang: Seq<char>,
}

/// The character content of a sub-subject.
pub struct SubSubjectRecord {
    pub subject_slug: Seq<char>,
    pub name: Seq<char>,
    pub slug: Seq<char>,
    pub description: Seq<char>,
    pub kelas: i64,
    pub semester: i64,
    pub bab: i64,
}

impl View for SeedSubject {
    type V = SubjectRecord;

    open spec fn view(&self) -> SubjectRecord {
        SubjectRecord {
            name: self.name@,
            slug: self.slug@,
            description: self.description@,
            jenjang: self.jenjang@,
        }
    }
}

impl View for SeedSubSubject {
    type V = SubSubjectRecord;

    open spec fn view(&self) -> SubSubjectRecord {
        SubSubjectRecord {
            subject_slug: self.subject_slug@,
            name: self.name@,
            slug: self.slug@,
            description: self.description@,
            kelas: self.kelas,
            semester: self.semester,
            bab: self.bab,
        }
    }
}

// ─── Slugs ──────────────────────────────────────────────────────────────────

/// An ASCII letter or digit.
pub open spec fn is_ascii_alnum(c: char) -> bool {
    ('a' <= c && c <= 'z') || ('A' <= c && c <= 'Z') || ('0' <= c && c <= '9')
}

/// `s` with every maximal run of characters other than ASCII letters and
/// digits replaced by one `-`.
pub open spec fn dash_runs(s: Seq<char>) -> Seq<char>
    decreases s.len(),
{
    if s.len() == 0 {
        s
    } else if is_ascii_alnum(s.last()) {
        dash_runs(s.drop_last()).push(s.last())
    } else if s.len() >= 2 && !is_ascii_alnum(s[s.len() - 2]) {
        dash_runs(s.drop_last())
    } else {
        dash_runs(s.drop_last()).push('-')
    }
}

/// `s` without its leading `-` characters.
pub open spec fn strip_leading_dashes(s: Seq<char>) -> Seq<char>
    decreases s.len(),
{
    if s.len() > 0 && s[0] == '-' {
        strip_leading_dashes(s.drop_first())
    } else {
        s
    }
}

/// `s` without its trailing `-` characters.
pub open spec fn strip_trailing_dashes(s: Seq<char>) -> Seq<char>
    decreases s.len(),
{
    if s.len() > 0 && s.last() == '-' {
        strip_trailing_dashes(s.drop_last())
    } else {
        s
    }
}

/// The slug of a name: runs of characters other than ASCII letters and
/// digits become `-`, dashes at both ends go, and letters are lowercased.
pub open spec fn slug_of(s: Seq<char>) -> Seq<char> {
    ascii_lower_seq(strip_trailing_dashes(strip_leading_dashes(dash_runs(s))))
}

/// Calls `regex::Regex::replace_all` with the pattern `[^a-zA-Z0-9]+` and
/// the replacement `-`. The contract claims what the regex crate documents
/// for this pattern: each leftmost-longest match, that is each maximal run
/// of characters other than ASCII letters and digits, becomes one `-`. The
/// pattern is a valid literal, so building the regex does not fail.
#[verifier::external_body]
fn replace_non_alnum_runs(value: &str) -> (r: String)
    ensures
        r@ == dash_runs(value@),
{
    regex::Regex::new(r"[^a-zA-Z0-9]+").unwrap().replace_all(value, "-").into_owned()
}

proof fn lemma_dash_runs_ascii(s: Seq<char>)
    ensures
        all_ascii(dash_runs(s)),
    decreases s.len(),
{
    if s.len() > 0 {
        lemma_dash_runs_ascii(s.drop_last());
    }
}

proof fn lemma_strip_leading_ascii(s: Seq<char>)
    requires
        all_ascii(s),
    ensures
        all_ascii(strip_leading_dashes(s)),
    decreases s.len(),
{
    if s.len() > 0 && s[0] == '-' {
        lemma_strip_leading_ascii(s.drop_first());
    }
}

proof fn lemma_strip_trailing_ascii(s: Seq<char>)
    requires
        all_ascii(s),
    ensures
        all_ascii(strip_trailing_dashes(s)),
    decreases s.len(),
{
    if s.len() > 0 && s.last() == '-' {
        lemma_strip_trailing_ascii(s.drop_last());
    }
}

/// `s` without the `-` characters at both ends (`str::trim_matches('-')`).
fn trim_dashes(s: &[char]) -> (r: Vec<char>)
    ensures
        r@ == strip_trailing_dashes(strip_leading_dashes(s@)),
{
    let mut start: usize = 0;
    assert(s@.skip(0) =~= s@);
    while start < s.len() && s[start] == '-'
        invariant
            start <= s.len(),
            strip_leading_dashes(s@) == strip_leading_dashes(s@.skip(start as int)),
        decreases s.len() - start,
    {
        assert(s@.skip(start as int).drop_first() =~= s@.skip(start + 1));
        start = start + 1;
    }
    let ghost lead = s@.skip(start as int);
    assert(strip_leading_dashes(lead) == lead);
    let mut end: usize = s.len();
    assert(lead.take(lead.len() as int) =~= lead);
    while end > start && s[end - 1] == '-'
        invariant
            start <= end <= s.len(),
            lead == s@.skip(start as int),
            strip_trailing_dashes(lead) == strip_trailing_dashes(lead.take(end - start)),
        decreases end,
    {
        assert(lead.take(end - start).drop_last() =~= lead.take(end - 1 - start));
        end = end - 1;
    }
    let mut r: Vec<char> = Vec::new();
    let mut k: usize = start;
    while k < end
        invariant
            start <= k <= end <= s.len(),
            r@ =~= s@.subrange(start as int, k as int),
        decreases end - k,
    {
        r.push(s[k]);
        k = k + 1;
    }
    assert(r@ =~= lead.take(end - start));
    r
}

/// The slug of a name (see `slug_of`).
pub fn slugify(value: &str) -> (r: String)
    ensures
        r@ == slug_of(value@),
{
    let replaced = replace_non_alnum_runs(value);
    let chars = chars_of(replaced.as_str());
    let trimmed = trim_dashes(chars.as_slice());
    proof {
        lemma_dash_runs_ascii(value@);
        lemma_strip_leading_ascii(dash_runs(value@));
        lemma_strip_trailing_ascii(strip_leading_dashes(dash_runs(value@)));
    }
    let lowered = lower_chars(trimmed.as_slice());
    string_of(lowered.as_slice())
}

// ─── Extraction ─────────────────────────────────────────────────────────────

/// The characters of an optional string.
pub open spec fn opt_chars(o: Option<String>) -> Option<Seq<char>> {
    match o {
        Some(s) => Some(s@),
        None => None,
    }
}

/// A present value that is not blank, trimmed.
pub open spec fn nonblank(o: Option<Seq<char>>) -> Option<Seq<char>> {
    match o {
        Some(s) => if trim(s).len() > 0 {
            Some(trim(s))
        } else {
            None
        },
        None => None,
    }
}

/// The given slug when it is not blank (trimmed), else the slug of the name.
pub open spec fn slug_or(given: Option<Seq<char>>, name: Seq<char>) -> Seq<char> {
    match nonblank(given) {
        Some(s) => s,
        None => slug_of(name),
    }
}

/// The value, or the empty sequence.
pub open spec fn or_empty(o: Option<Seq<char>>) -> Seq<char> {
    match o {
        Some(s) => s,
        None => Seq::empty(),
    }
}

/// What separates a subject's name from its level in its description.
pub open spec fn curriculum_infix() -> Seq<char> {
    " \u{2014} Kurikulum Merdeka "@
}

/// A record yields a subject and a sub-subject when it names both.
pub open spec fn entry_valid(e: SubjectJsonEntry) -> bool {
    nonblank(opt_chars(e.subject)) is Some && nonblank(opt_chars(e.sub_subject)) is Some
}

/// The subject that a valid record names.
pub open spec fn entry_subject(e: SubjectJsonEntry) -> SubjectRecord {
    let name = nonblank(opt_chars(e.subject)).unwrap();
    let jenjang = or_empty(opt_chars(e.jenjang));
    SubjectRecord {
        name: name,
        slug: slug_or(opt_chars(e.subject_slug), name),
        description: name + curriculum_infix() + jenjang,
        jenjang: jenjang,
    }
}

/// The sub-subject that a valid record names.
pub open spec fn entry_sub_subject(e: SubjectJsonEntry) -> SubSubjectRecord {
    let name = nonblank(opt_chars(e.sub_subject)).unwrap();
    let description = match opt_chars(e.deskripsi_singkat) {
        Some(d) => d,
        None => or_empty(opt_chars(e.description)),
    };
    SubSubjectRecord {
        subject_slug: entry_subject(e).slug,
        name: name,
        slug: slug_or(opt_chars(e.sub_subject_slug), name),
        description: description,
        kelas: match e.kelas { Some(k) => k, None => 0 },
        semester: match e.semester { Some(k) => k, None => 0 },
        bab: match e.bab { Some(k) => k, None => 0 },
    }
}

/// The subjects of the records by slug; the first record with a slug wins.
pub open spec fn subject_table(es: Seq<SubjectJsonEntry>) -> Map<Seq<char>, SubjectRecord>
    decreases es.len(),
{
    if es.len() == 0 {
        Map::empty()
    } else {
        let t = subject_table(es.drop_last());
        let e = es.last();
        if entry_valid(e) && !t.contains_key(entry_subject(e).slug) {
            t.insert(entry_subject(e).slug, entry_subject(e))
        } else {
            t
        }
    }
}

/// The sub-subjects of the valid records, in record order.
pub open spec fn sub_subject_records(es: Seq<SubjectJsonEntry>) -> Seq<SubSubjectRecord>
    decreases es.len(),
{
    if es.len() == 0 {
        Seq::empty()
    } else {
        let prefix = sub_subject_records(es.drop_last());
        if entry_valid(es.last()) {
            prefix.push(entry_sub_subject(es.last()))
        } else {
            prefix
        }
    }
}

/// The records that name both a subject and a sub-subject (absent or blank
/// names do not count), in record order.
pub open spec fn named_records(es: Seq<SubjectJsonEntry>) -> Seq<SubjectJsonEntry>
    decreases es.len(),
{
    if es.len() == 0 {
        Seq::empty()
    } else {
        let prefix = named_records(es.drop_last());
        let e = es.last();
        let named = |o: Option<String>| match o {
            Some(x) => trim(x@).len() > 0,
            None => false,
        };
        if named(e.subject) && named(e.sub_subject) {
            prefix.push(e)
        } else {
            prefix
        }
    }
}

/// A seeded sub-subject's description: the record's short description when
/// it has one, else its description, else empty.
pub open spec fn short_description_first(e: SubjectJsonEntry) -> Seq<char> {
    match e.deskripsi_singkat {
        Some(d) => d@,
        None => match e.description {
            Some(d) => d@,
            None => Seq::empty(),
        },
    }
}

/// The given slug, trimmed, when it is not blank; else the slug of the name.
pub open spec fn given_or_derived_slug(given: Option<String>, name: Seq<char>) -> Seq<char> {
    match given {
        Some(g) => if trim(g@).len() > 0 { trim(g@) } else { slug_of(name) },
        None => slug_of(name),
    }
}

/// There is one seeded sub-subject per record that names both a subject and
/// a sub-subject, in record order; each is named by the record's trimmed
/// sub-subject, with its given sub-subject slug (else the slug of that name)
/// and its subject's given slug (else the slug of the trimmed subject); it
/// takes the record's short description when it has one, else its
/// description, else empty, and takes class, semester and chapter from the
/// record, 0 where it gives none.
pub proof fn lemma_sub_subjects_follow_records(es: Seq<SubjectJsonEntry>)
    ensures
        sub_subject_records(es).len() == named_records(es).len(),
        forall|j: int| 0 <= j < named_records(es).len() ==> {
            let e = #[trigger] named_records(es)[j];
            let r = sub_subject_records(es)[j];
            &&& r.description == short_description_first(e)
            &&& e.sub_subject matches Some(n) && r.name == trim(n@)
                && r.slug == given_or_derived_slug(e.sub_subject_slug, trim(n@))
            &&& e.subject matches Some(n) && r.subject_slug == given_or_derived_slug(e.subject_slug, trim(n@))
            &&& r.kelas == (match e.kelas { Some(k) => k, None => 0 })
            &&& r.semester == (match e.semester { Some(k) => k, None => 0 })
            &&& r.bab == (match e.bab { Some(k) => k, None => 0 })
        },
    decreases es.len(),
{
    if es.len() > 0 {
        lemma_sub_subjects_follow_records(es.drop_last());
        let e = es.last();
        assert(entry_valid(e) <==> (e.subject matches Some(x) && trim(x@).len() > 0)
            && (e.sub_subject matches Some(y) && trim(y@).len() > 0));
        let prev = named_records(es.drop_last());
        assert forall|j: int| 0 <= j < named_records(es).len() implies {
            let e = #[trigger] named_records(es)[j];
            let r = sub_subject_records(es)[j];
            &&& r.description == short_description_first(e)
            &&& e.sub_subject matches Some(n) && r.name == trim(n@)
                && r.slug == given_or_derived_slug(e.sub_subject_slug, trim(n@))
            &&& e.subject matches Some(n) && r.subject_slug == given_or_derived_slug(e.subject_slug, trim(n@))
            &&& r.kelas == (match e.kelas { Some(k) => k, None => 0 })
            &&& r.semester == (match e.semester { Some(k) => k, None => 0 })
            &&& r.bab == (match e.bab { Some(k) => k, None => 0 })
        } by {
            if j < prev.len() {
                assert(named_records(es)[j] == prev[j]);
                assert(sub_subject_records(es)[j] == sub_subject_records(es.drop_last())[j]);
            }
        }
    }
}

/// `v` lists the subjects of `t` in strictly increasing slug order, each
/// once.
pub open spec fn lists_by_slug(v: Seq<SubjectRecord>, t: Map<Seq<char>, SubjectRecord>) -> bool {
    &&& forall|i: int, j: int| 0 <= i < j < v.len() ==> seq_less(#[trigger] v[i].slug, #[trigger] v[j].slug)
    &&& forall|i: int| 0 <= i < v.len() ==> t.contains_key(#[trigger] v[i].slug) && t[v[i].slug] == v[i]
    &&& forall|k: Seq<char>| #[trigger] t.contains_key(k) ==> exists|i: int| 0 <= i < v.len() && v[i].slug == k
}

/// The views of a list of subjects.
pub open spec fn subject_views(v: Seq<SeedSubject>) -> Seq<SubjectRecord> {
    v.map_values(|s: SeedSubject| s@)
}

/// The views of a list of sub-subjects.
pub open spec fn sub_subject_views(v: Seq<SeedSubSubject>) -> Seq<SubSubjectRecord> {
    v.map_values(|s: SeedSubSubject| s@)
}

fn opt_string_chars(o: &Option<String>) -> (r: Option<Vec<char>>)
    ensures
        match opt_chars(*o) {
            Some(s) => r is Some && r.unwrap()@ == s,
            None => r is None,
        },
{
    match o {
        Some(s) => Some(chars_of(s.as_str())),
        None => None,
    }
}

fn nonblank_chars(o: &Option<String>) -> (r: Option<Vec<char>>)
    ensures
        match nonblank(opt_chars(*o)) {
            Some(s) => r is Some && r.unwrap()@ == s,
            None => r is None,
        },
{
    match o {
        Some(s) => {
            let c = chars_of(s.as_str());
            let t = trim_chars(c.as_slice());
            if t.len() > 0 {
                Some(t)
            } else {
                None
            }
        },
        None => None,
    }
}

fn slug_or_exec(given: &Option<String>, name: &Vec<char>) -> (r: Vec<char>)
    ensures
        r@ == slug_or(opt_chars(*given), name@),
{
    match nonblank_chars(given) {
        Some(s) => s,
        None => {
            let n = string_of(name.as_slice());
            let sl = slugify(n.as_str());
            chars_of(sl.as_str())
        },
    }
}

fn or_empty_exec(o: &Option<String>) -> (r: Vec<char>)
    ensures
        r@ == or_empty(opt_chars(*o)),
{
    match opt_string_chars(o) {
        Some(v) => v,
        None => Vec::new(),
    }
}

/// The subject and sub-subject that a record names, when it names both.
fn entry_records(e: &SubjectJsonEntry) -> (r: Option<(SeedSubject, SeedSubSubject)>)
    ensures
        r is Some <==> entry_valid(*e),
        r is Some ==> r.unwrap().0@ == entry_subject(*e) && r.unwrap().1@ == entry_sub_subject(*e),
{
    let name = match nonblank_chars(&e.subject) {
        Some(n) => n,
        None => return None,
    };
    let sub_name = match nonblank_chars(&e.sub_subject) {
        Some(n) => n,
        None => return None,
    };
    let slug = slug_or_exec(&e.subject_slug, &name);
    let sub_slug = slug_or_exec(&e.sub_subject_slug, &sub_name);
    let jenjang = or_empty_exec(&e.jenjang);
    let description = match opt_string_chars(&e.deskripsi_singkat) {
        Some(d) => d,
        None => or_empty_exec(&e.description),
    };
    let mut subject_description = name.clone();
    let infix = chars_of(" \u{2014} Kurikulum Merdeka ");
    crate::text::push_all(&mut subject_description, infix.as_slice());
    crate::text::push_all(&mut subject_description, jenjang.as_slice());
    let subject = SeedSubject {
        name: string_of(name.as_slice()),
        slug: string_of(slug.as_slice()),
        description: string_of(subject_description.as_slice()),
        jenjang: string_of(jenjang.as_slice()),
    };
    let sub = SeedSubSubject {
        subject_slug: string_of(slug.as_slice()),
        name: string_of(sub_name.as_slice()),
        slug: string_of(sub_slug.as_slice()),
        description: string_of(description.as_slice()),
        kelas: match e.kelas { Some(k) => k, None => 0 },
        semester: match e.semester { Some(k) => k, None => 0 },
        bab: match e.bab { Some(k) => k, None => 0 },
    };
    Some((subject, sub))
}

/// Adds a subject in slug order unless its slug is listed already.
fn insert_by_slug(
    list: &mut Vec<SeedSubject>,
    subject: SeedSubject,
    Ghost(t): Ghost<Map<Seq<char>, SubjectRecord>>,
)
    requires
        lists_by_slug(subject_views(old(list)@), t),
    ensures
        lists_by_slug(
            subject_views(final(list)@),
            if t.contains_key(subject@.slug) { t } else { t.insert(subject@.slug, subject@) },
        ),
{
    let ghost v = subject_views(list@);
    let key = chars_of(subject.slug.as_str());
    let mut p: usize = 0;
    while p < list.len()
        invariant
            p <= list.len(),
            v == subject_views(list@),
            key@ == subject@.slug,
            forall|k: int| 0 <= k < p ==> seq_less(#[trigger] v[k].slug, key@),
        ensures
            p <= list.len(),
            forall|k: int| 0 <= k < p ==> seq_less(#[trigger] v[k].slug, key@),
            p < list.len() ==> !seq_less(v[p as int].slug, key@),
        decreases list.len() - p,
    {
        let here = chars_of(list[p].slug.as_str());
        if !less_chars(here.as_slice(), key.as_slice()) {
            break;
        }
        p = p + 1;
    }
    if p < list.len() {
        let here = chars_of(list[p].slug.as_str());
        if eq_chars(here.as_slice(), key.as_slice()) {
            assert(v[p as int].slug == key@);
            return;
        }
        proof {
            lemma_seq_less_total(key@, v[p as int].slug);
        }
    }
    proof {
        assert forall|k: int| p <= k < v.len() implies seq_less(key@, #[trigger] v[k].slug) by {
            if k > p {
                lemma_seq_less_transitive(key@, v[p as int].slug, v[k].slug);
            }
        }
        assert forall|k: int| 0 <= k < v.len() implies #[trigger] v[k].slug != key@ by {
            lemma_seq_less_irreflexive(key@);
        }
        assert(!t.contains_key(key@));
    }
    list.insert(p, subject);
    proof {
        let nv = subject_views(list@);
        let nt = t.insert(key@, subject@);
        assert(nv =~= v.insert(p as int, subject@));
        assert forall|i: int, j: int| 0 <= i < j < nv.len() implies seq_less(
            #[trigger] nv[i].slug,
            #[trigger] nv[j].slug,
        ) by {
            if j < p {
            } else if j == p {
            } else if i < p {
                lemma_seq_less_transitive(v[i].slug, key@, v[j - 1].slug);
            } else if i == p {
            } else {
            }
        }
        assert forall|i: int| 0 <= i < nv.len() implies nt.contains_key(#[trigger] nv[i].slug)
            && nt[nv[i].slug] == nv[i] by {
            if i < p {
            } else if i == p {
            } else {
                assert(nv[i] == v[i - 1]);
            }
        }
        assert forall|k: Seq<char>| #[trigger] nt.contains_key(k) implies exists|i: int|
            0 <= i < nv.len() && nv[i].slug == k by {
            if k == key@ {
                assert(nv[p as int].slug == k);
            } else {
                let i = choose|i: int| 0 <= i < v.len() && v[i].slug == k;
                if i < p {
                    assert(nv[i].slug == k);
                } else {
                    assert(nv[i + 1].slug == k);
                }
            }
        }
    }
}

/// The subjects of the records are exactly the subjects that their
/// sub-subjects point at.
proof fn lemma_table_matches_sub_subjects(es: Seq<SubjectJsonEntry>)
    ensures
        forall|k: Seq<char>| #[trigger] subject_table(es).contains_key(k) ==> exists|j: int|
            0 <= j < sub_subject_records(es).len() && sub_subject_records(es)[j].subject_slug == k,
        forall|j: int| 0 <= j < sub_subject_records(es).len() ==> subject_table(es).contains_key(
            #[trigger] sub_subject_records(es)[j].subject_slug,
        ),
    decreases es.len(),
{
    if es.len() > 0 {
        let prev = es.drop_last();
        lemma_table_matches_sub_subjects(prev);
        let t = subject_table(es);
        let s = sub_subject_records(es);
        let pt = subject_table(prev);
        let ps = sub_subject_records(prev);
        assert forall|k: Seq<char>| #[trigger] t.contains_key(k) implies exists|j: int|
            0 <= j < s.len() && s[j].subject_slug == k by {
            if pt.contains_key(k) {
                let j = choose|j: int| 0 <= j < ps.len() && ps[j].subject_slug == k;
                assert(s[j] == ps[j]);
            } else {
                assert(s[ps.len() as int].subject_slug == k);
            }
        }
        assert forall|j: int| 0 <= j < s.len() implies t.contains_key(#[trigger] s[j].subject_slug) by {
            if j < ps.len() {
                assert(s[j] == ps[j]);
                assert(pt.contains_key(ps[j].subject_slug));
            }
        }
    }
}

/// Some subject of `v` has the slug `k`.
pub open spec fn slug_listed(v: Seq<SeedSubject>, k: Seq<char>) -> bool {
    exists|i: int| 0 <= i < v.len() && v[i].slug@ == k
}

/// Some sub-subject of `v` belongs to the subject with the slug `k`.
pub open spec fn parent_listed(v: Seq<SeedSubSubject>, k: Seq<char>) -> bool {
    exists|j: int| 0 <= j < v.len() && v[j].subject_slug@ == k
}

/// The unique subjects of the taxonomy records, in slug order, and the
/// sub-subjects of the records that name both a subject and a sub-subject.
///
/// A record that names no subject or no sub-subject (absent or blank) is
/// skipped. Names and given slugs are trimmed; a missing or blank slug is
/// the slug of the name. When several records name one subject slug, the
/// first one's subject is kept. A subject's description is its name, ` — 
/// Kurikulum Merdeka ` and its level; a sub-subject's is its short
/// description, else its description, else empty.
pub fn extract_subjects_and_sub_subjects(
    entries: &[SubjectJsonEntry],
) -> (r: (Vec<SeedSubject>, Vec<SeedSubSubject>))
    ensures
        lists_by_slug(subject_views(r.0@), subject_table(entries@)),
        sub_subject_views(r.1@) == sub_subject_records(entries@),
        r.1.len() == named_records(entries@).len(),
        forall|j: int| 0 <= j < r.1.len() ==> (#[trigger] r.1@[j]).description@
            == short_description_first(named_records(entries@)[j]),
        forall|i: int, j: int| 0 <= i < r.0.len() && 0 <= j < r.0.len() && i != j
            ==> r.0[i].slug@ != r.0[j].slug@,
        forall|j: int| 0 <= j < r.1.len() ==> slug_listed(r.0@, #[trigger] r.1@[j].subject_slug@),
        forall|i: int| 0 <= i < r.0.len() ==> parent_listed(r.1@, #[trigger] r.0@[i].slug@),
{
    let mut subjects: Vec<SeedSubject> = Vec::new();
    let mut subs: Vec<SeedSubSubject> = Vec::new();
    let mut i: usize = 0;
    assert(entries@.take(0) =~= Seq::<SubjectJsonEntry>::empty());
    assert(subject_views(subjects@) =~= Seq::<SubjectRecord>::empty());
    while i < entries.len()
        invariant
            i <= entries.len(),
            lists_by_slug(subject_views(subjects@), subject_table(entries@.take(i as int))),
            sub_subject_views(subs@) == sub_subject_records(entries@.take(i as int)),
        decreases entries.len() - i,
    {
        let ghost before = entries@.take(i as int);
        let ghost after = entries@.take(i + 1);
        assert(after.drop_last() =~= before);
        assert(after.last() == entries@[i as int]);
        match entry_records(&entries[i]) {
            Some((subject, sub)) => {
                insert_by_slug(&mut subjects, subject, Ghost(subject_table(before)));
                let ghost old_subs = subs@;
                subs.push(sub);
                assert(sub_subject_views(subs@) =~= sub_subject_views(old_subs).push(sub@));
            },
            None => {},
        }
        i = i + 1;
    }
    assert(entries@.take(entries.len() as int) =~= entries@);
    let r = (subjects, subs);
    proof {
        let v = subject_views(r.0@);
        let w = sub_subject_views(r.1@);
        let t = subject_table(entries@);
        lemma_table_matches_sub_subjects(entries@);
        lemma_sub_subjects_follow_records(entries@);
        assert forall|j: int| 0 <= j < r.1.len() implies (#[trigger] r.1@[j]).description@
            == short_description_first(named_records(entries@)[j]) by {
            assert(w[j].description == r.1@[j].description@);
        }
        assert forall|i: int, j: int| 0 <= i < r.0.len() && 0 <= j < r.0.len() && i != j
            implies r.0[i].slug@ != r.0[j].slug@ by {
            assert(v[i].slug == r.0[i].slug@ && v[j].slug == r.0[j].slug@);
            if i < j {
                assert(seq_less(v[i].slug, v[j].slug));
            } else {
                assert(seq_less(v[j].slug, v[i].slug));
            }
            lemma_seq_less_irreflexive(v[i].slug);
        }
        assert forall|j: int| 0 <= j < r.1.len() implies slug_listed(r.0@, #[trigger] r.1@[j].subject_slug@) by {
            assert(w[j].subject_slug == r.1@[j].subject_slug@);
            assert(t.contains_key(w[j].subject_slug));
            let i = choose|i: int| 0 <= i < v.len() && v[i].slug == w[j].subject_slug;
            assert(v[i].slug == r.0@[i].slug@);
        }
        assert forall|i: int| 0 <= i < r.0.len() implies parent_listed(r.1@, #[trigger] r.0@[i].slug@) by {
            assert(v[i].slug == r.0@[i].slug@);
            assert(t.contains_key(v[i].slug));
            let j = choose|j: int| 0 <= j < w.len() && w[j].subject_slug == v[i].slug;
            assert(w[j].subject_slug == r.1@[j].subject_slug@);
        }
    }
    r
}

/// The display order of a sub-subject's values: class, then semester, then
/// chapter, each as `i32`.
pub open spec fn display_order(kelas: i64, semester: i64, bab: i64) -> int {
    (kelas as i32) * 10000 + (semester as i32) * 100 + (bab as i32)
}

/// The display order of a sub-subject fits `i32` at every step.
pub open spec fn display_order_fits(kelas: i64, semester: i64, bab: i64) -> bool {
    &&& i32::MIN <= (kelas as i32) * 10000 <= i32::MAX
    &&& i32::MIN <= (semester as i32) * 100 <= i32::MAX
    &&& i32::MIN <= (kelas as i32) * 10000 + (semester as i32) * 100 <= i32::MAX
    &&& i32::MIN <= display_order(kelas, semester, bab) <= i32::MAX
}

/// Whether the display order of a sub-subject's values fits `i32` at every
/// step (see `display_order_fits`).
pub fn display_order_in_range(kelas: i64, semester: i64, bab: i64) -> (r: bool)
    ensures
        r == display_order_fits(kelas, semester, bab),
{
    let k: i64 = (#[verifier::truncate] (kelas as i32)) as i64;
    let s: i64 = (#[verifier::truncate] (semester as i32)) as i64;
    let b: i64 = (#[verifier::truncate] (bab as i32)) as i64;
    let lo: i64 = i32::MIN as i64;
    let hi: i64 = i32::MAX as i64;
    let a = k * 10000;
    let c = s * 100;
    a >= lo && a <= hi && c >= lo && c <= hi && a + c >= lo && a + c <= hi && a + c + b >= lo && a + c + b <= hi
}

/// The display order of a sub-subject: class × 10000 + semester × 100 +
/// chapter, each taken as `i32`.
pub fn compute_sub_subject_display_order(sub: &SeedSubSubject) -> (r: i32)
    requires
        display_order_fits(sub.kelas, sub.semester, sub.bab),
    ensures
        r == display_order(sub.kelas, sub.semester, sub.bab),
{
    let kelas: i32 = #[verifier::truncate] (sub.kelas as i32);
    let semester: i32 = #[verifier::truncate] (sub.semester as i32);
    let bab: i32 = #[verifier::truncate] (sub.bab as i32);
    kelas * 10000 + semester * 100 + bab
}

/// The display order of the subject at a position of the extracted list:
/// its position counted from 1.
pub fn subject_display_order(index: usize) -> (r: i32)
    requires
        index < i32::MAX,
    ensures
        r == index + 1,
{
    (index + 1) as i32
}

/// A sub-subject row to insert under a stored subject.
#[derive(Debug, Clone)]
pub struct SubSubjectInsert {
    pub subject_id: i64,
    pub name: String,
    pub slug: String,
    pub description: String,
    pub display_order: i32,
}

/// The id stored for a subject slug: the first pair with that slug.
pub open spec fn stored_id(ids: Seq<(String, i64)>, slug: Seq<char>) -> Option<i64>
    decreases ids.len(),
{
    if ids.len() == 0 {
        None
    } else if ids[0].0@ == slug {
        Some(ids[0].1)
    } else {
        stored_id(ids.drop_first(), slug)
    }
}

/// The rows to insert for the sub-subjects whose subject was stored, in
/// order, as (subject id, name, slug, description, display order); a
/// sub-subject whose subject slug has no stored id is skipped.
pub open spec fn planned_inserts(subs: Seq<SeedSubSubject>, ids: Seq<(String, i64)>) -> Seq<(i64, Seq<char>, Seq<char>, Seq<char>, int)>
    decreases subs.len(),
{
    if subs.len() == 0 {
        Seq::empty()
    } else {
        let prefix = planned_inserts(subs.drop_last(), ids);
        let sub = subs.last();
        match stored_id(ids, sub.subject_slug@) {
            Some(id) => prefix.push((id, sub.name@, sub.slug@, sub.description@, display_order(sub.kelas, sub.semester, sub.bab))),
            None => prefix,
        }
    }
}

/// The content of a planned row.
pub open spec fn insert_view(row: SubSubjectInsert) -> (i64, Seq<char>, Seq<char>, Seq<char>, int) {
    (row.subject_id, row.name@, row.slug@, row.description@, row.display_order as int)
}

fn find_stored_id(ids: &Vec<(String, i64)>, slug: &str) -> (r: Option<i64>)
    ensures
        r == stored_id(ids@, slug@),
{
    let want = chars_of(slug);
    let mut i: usize = 0;
    assert(ids@.skip(0) =~= ids@);
    while i < ids.len()
        invariant
            i <= ids.len(),
            want@ == slug@,
            stored_id(ids@, slug@) == stored_id(ids@.skip(i as int), slug@),
        decreases ids.len() - i,
    {
        assert(ids@.skip(i as int).drop_first() =~= ids@.skip(i + 1));
        assert(ids@.skip(i as int)[0] == ids@[i as int]);
        let here = chars_of(ids[i].0.as_str());
        if eq_chars(here.as_slice(), want.as_slice()) {
            return Some(ids[i].1);
        }
        i = i + 1;
    }
    None
}

/// The sub-subject rows to insert once the subjects are stored: each
/// sub-subject whose subject slug has a stored id, with that id and its
/// display order; the others are skipped.
pub fn plan_sub_subject_inserts(subs: &Vec<SeedSubSubject>, subject_ids: &Vec<(String, i64)>) -> (r: Vec<SubSubjectInsert>)
    requires
        forall|i: int| 0 <= i < subs.len() ==> display_order_fits(#[trigger] subs[i].kelas, subs[i].semester, subs[i].bab),
    ensures
        r@.map_values(|x: SubSubjectInsert| insert_view(x)) == planned_inserts(subs@, subject_ids@),
{
    let mut rows: Vec<SubSubjectInsert> = Vec::new();
    let mut i: usize = 0;
    assert(subs@.take(0) =~= Seq::<SeedSubSubject>::empty());
    while i < subs.len()
        invariant
            i <= subs.len(),
            forall|j: int| 0 <= j < subs.len() ==> display_order_fits(#[trigger] subs[j].kelas, subs[j].semester, subs[j].bab),
            rows@.map_values(|x: SubSubjectInsert| insert_view(x)) == planned_inserts(subs@.take(i as int), subject_ids@),
        decreases subs.len() - i,
    {
        assert(subs@.take(i + 1).drop_last() =~= subs@.take(i as int));
        let sub = &subs[i];
        let ghost before = rows@.map_values(|x: SubSubjectInsert| insert_view(x));
        match find_stored_id(subject_ids, sub.subject_slug.as_str()) {
            Some(id) => {
                let row = SubSubjectInsert {
                    subject_id: id,
                    name: sub.name.clone(),
                    slug: sub.slug.clone(),
                    description: sub.description.clone(),
                    display_order: compute_sub_subject_display_order(sub),
                };
                rows.push(row);
                assert(rows@.map_values(|x: SubSubjectInsert| insert_view(x)) =~= before.push(
                    (id, sub.name@, sub.slug@, sub.description@, display_order(sub.kelas, sub.semester, sub.bab)),
                ));
            },
            None => {},
        }
        i = i + 1;
    }
    assert(subs@.take(subs.len() as int) =~= subs@);
    rows
}

} // verus!
