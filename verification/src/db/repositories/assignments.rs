//! Recommendation assignment tracking: which served feed items are
//! recorded, under which key and source reference.
use vstd::prelude::*;
use vstd::string::*;

use crate::text::{chars_of, seq_starts_with, starts_with_chars, str_is, string_of};

verus! {

/// Source type of items uploaded by an administrator.
pub const SOURCE_ADMIN_UPLOAD: &'static str = "admin_upload";
/// Source type of items derived from a system topic.
pub const SOURCE_SYSTEM_TOPIC: &'static str = "system_topic";
/// Source type of AI-generated items.
pub const SOURCE_AI_GENERATED: &'static str = "ai_generated";

/// Source types tracked when no configuration overrides them.
pub fn default_trackable_source_types() -> (r: Vec<String>)
    ensures
        r@.len() == 2,
        r@[0]@ == "system_topic"@,
        r@[1]@ == "ai_generated"@,
{
    let mut v: Vec<String> = Vec::new();
    v.push(String::from_str("system_topic"));
    v.push(String::from_str("ai_generated"));
    v
}

/// A served feed item, reduced to what tracking needs.
#[derive(Debug, Clone)]
pub struct TrackableFeedItem {
    pub id: String,
    pub source_type: String,
    pub source_reference: Option<String>,
    pub source_payload_topic_id: Option<String>,
    pub source_payload_source_reference: Option<String>,
    pub subject_id: Option<i64>,
    pub sub_subject_id: Option<i64>,
}

/// Key identifying a recommendation: `<source_type>:<source_reference>`.
pub open spec fn recommendation_key(source_type: Seq<char>, source_reference: Seq<char>) -> Seq<char> {
    source_type + ":"@ + source_reference
}

/// Build the recommendation key `<source_type>:<source_reference>`.
pub fn make_recommendation_key(source_type: &str, source_reference: &str) -> (r: String)
    ensures
        r@ == recommendation_key(source_type@, source_reference@),
{
    let s = String::from_str(source_type);
    let s = s.concat(":");
    s.concat(source_reference)
}

/// Topic id carried in an item id of the form `system_topic_<id>`.
pub open spec fn topic_reference_of(item_id: Seq<char>) -> Option<Seq<char>> {
    let prefix = "system_topic_"@;
    if seq_starts_with(item_id, prefix) && item_id.len() > prefix.len() {
        Some(item_id.skip(prefix.len() as int))
    } else {
        None
    }
}

/// The topic id in an item id `system_topic_<id>`, when `<id>` is non-empty.
pub fn extract_topic_reference_from_item_id(item_id: &str) -> (r: Option<String>)
    ensures
        match r {
            Some(t) => topic_reference_of(item_id@) == Some(t@),
            None => topic_reference_of(item_id@) is None,
        },
{
    let id = chars_of(item_id);
    let prefix = chars_of("system_topic_");
    if starts_with_chars(id.as_slice(), prefix.as_slice()) && id.len() > prefix.len() {
        let mut rest: Vec<char> = Vec::new();
        let mut k: usize = prefix.len();
        while k < id.len()
            invariant
                prefix.len() <= k <= id.len(),
                rest@ == id@.subrange(prefix.len() as int, k as int),
            decreases id.len() - k,
        {
            rest.push(id[k]);
            k += 1;
            assert(rest@ =~= id@.subrange(prefix.len() as int, k as int));
        }
        assert(rest@ =~= id@.skip(prefix.len() as int));
        Some(string_of(rest.as_slice()))
    } else {
        None
    }
}

/// A non-empty optional string.
pub open spec fn present(o: Option<String>) -> bool {
    o matches Some(s) && s@.len() > 0
}

/// The source reference recorded for an item: its own non-empty
/// `source_reference`; else, for system topics, the payload topic id or the
/// topic id carried in the item id; else the payload source reference;
/// else the item id.
pub open spec fn source_reference_of(item: TrackableFeedItem) -> Seq<char> {
    if present(item.source_reference) {
        item.source_reference->0@
    } else if item.source_type@ == "system_topic"@ && present(item.source_payload_topic_id) {
        item.source_payload_topic_id->0@
    } else if item.source_type@ == "system_topic"@ && topic_reference_of(item.id@) is Some {
        topic_reference_of(item.id@)->0
    } else if present(item.source_payload_source_reference) {
        item.source_payload_source_reference->0@
    } else {
        item.id@
    }
}

/// Resolve the source reference of an item (see `source_reference_of`).
pub fn resolve_source_reference(item: &TrackableFeedItem) -> (r: String)
    ensures
        r@ == source_reference_of(*item),
{
    if let Some(sr) = &item.source_reference {
        if sr.as_str().unicode_len() > 0 {
            return sr.clone();
        }
    }
    if str_is(item.source_type.as_str(), "system_topic") {
        if let Some(topic_id) = &item.source_payload_topic_id {
            if topic_id.as_str().unicode_len() > 0 {
                return topic_id.clone();
            }
        }
        if let Some(extracted) = extract_topic_reference_from_item_id(item.id.as_str()) {
            return extracted;
        }
    }
    if let Some(psr) = &item.source_payload_source_reference {
        if psr.as_str().unicode_len() > 0 {
            return psr.clone();
        }
    }
    item.id.clone()
}

} // verus!

verus! {

/// One assignment row to upsert for a served item.
#[derive(Debug, Clone)]
pub struct AssignmentRow {
    pub recommendation_key: String,
    pub recommendation_item_id: String,
    pub source_type: String,
    pub source_reference: String,
    pub subject_id: Option<i64>,
    pub sub_subject_id: Option<i64>,
}

/// Plain view of an assignment row: (key, item id, source type, source
/// reference, subject id, sub-subject id).
pub open spec fn row_view(r: AssignmentRow) -> (Seq<char>, Seq<char>, Seq<char>, Seq<char>, Option<i64>, Option<i64>) {
    (r.recommendation_key@, r.recommendation_item_id@, r.source_type@, r.source_reference@, r.subject_id, r.sub_subject_id)
}

/// The row recorded for an item.
pub open spec fn row_for(item: TrackableFeedItem) -> (Seq<char>, Seq<char>, Seq<char>, Seq<char>, Option<i64>, Option<i64>) {
    (
        recommendation_key(item.source_type@, source_reference_of(item)),
        item.id@,
        item.source_type@,
        source_reference_of(item),
        item.subject_id,
        item.sub_subject_id,
    )
}

/// `t` is one of the trackable source types.
pub open spec fn is_trackable(types: Seq<String>, t: Seq<char>) -> bool {
    exists|i: int| 0 <= i < types.len() && types[i]@ == t
}

/// `key` is already used by a planned row.
pub open spec fn key_planned(
    rows: Seq<(Seq<char>, Seq<char>, Seq<char>, Seq<char>, Option<i64>, Option<i64>)>,
    key: Seq<char>,
) -> bool {
    exists|i: int| 0 <= i < rows.len() && rows[i].0 == key
}

/// Rows recorded for the first `n` items: each item whose source type is
/// trackable and whose key has not been planned before, in item order.
pub open spec fn tracked_rows(items: Seq<TrackableFeedItem>, types: Seq<String>, n: nat)
    -> Seq<(Seq<char>, Seq<char>, Seq<char>, Seq<char>, Option<i64>, Option<i64>)>
    decreases n,
{
    if n == 0 {
        seq![]
    } else {
        let prev = tracked_rows(items, types, (n - 1) as nat);
        let item = items[n - 1];
        if is_trackable(types, item.source_type@) && !key_planned(prev, row_for(item).0) {
            prev.push(row_for(item))
        } else {
            prev
        }
    }
}

fn is_trackable_exec(types: &Vec<String>, t: &str) -> (r: bool)
    ensures
        r == is_trackable(types@, t@),
{
    let mut i: usize = 0;
    while i < types.len()
        invariant
            i <= types.len(),
            forall|k: int| 0 <= k < i ==> types@[k]@ != t@,
        decreases types.len() - i,
    {
        if str_is(types[i].as_str(), t) {
            return true;
        }
        i += 1;
    }
    false
}

fn key_planned_exec(rows: &Vec<AssignmentRow>, key: &str) -> (r: bool)
    ensures
        r == key_planned(rows@.map_values(|x: AssignmentRow| row_view(x)), key@),
{
    let ghost rv = rows@.map_values(|x: AssignmentRow| row_view(x));
    let mut i: usize = 0;
    while i < rows.len()
        invariant
            i <= rows.len(),
            rv == rows@.map_values(|x: AssignmentRow| row_view(x)),
            forall|k: int| 0 <= k < i ==> rv[k].0 != key@,
        decreases rows.len() - i,
    {
        if str_is(rows[i].recommendation_key.as_str(), key) {
            assert(rv[i as int].0 == key@);
            return true;
        }
        i += 1;
    }
    false
}

/// The assignment rows to upsert for served items: items whose source type
/// is trackable, one row per recommendation key (the first item with that
/// key wins), in the order served.
pub fn plan_tracked_assignments(items: &Vec<TrackableFeedItem>, trackable_source_types: &Vec<String>) -> (r: Vec<AssignmentRow>)
    ensures
        r@.map_values(|x: AssignmentRow| row_view(x)) == tracked_rows(items@, trackable_source_types@, items@.len()),
{
    let mut rows: Vec<AssignmentRow> = Vec::new();
    let mut i: usize = 0;
    while i < items.len()
        invariant
            i <= items.len(),
            rows@.map_values(|x: AssignmentRow| row_view(x)) == tracked_rows(items@, trackable_source_types@, i as nat),
        decreases items.len() - i,
    {
        let item = &items[i];
        let ghost prev = rows@.map_values(|x: AssignmentRow| row_view(x));
        if is_trackable_exec(trackable_source_types, item.source_type.as_str()) {
            let source_reference = resolve_source_reference(item);
            let key = make_recommendation_key(item.source_type.as_str(), source_reference.as_str());
            if !key_planned_exec(&rows, key.as_str()) {
                let row = AssignmentRow {
                    recommendation_key: key,
                    recommendation_item_id: item.id.clone(),
                    source_type: item.source_type.clone(),
                    source_reference,
                    subject_id: item.subject_id,
                    sub_subject_id: item.sub_subject_id,
                };
                let ghost rowv = row_view(row);
                rows.push(row);
                assert(rows@.map_values(|x: AssignmentRow| row_view(x)) =~= prev.push(rowv));
            }
        }
        i += 1;
    }
    rows
}

/// `row` is the row of one of the first `n` served items whose source type
/// is trackable.
pub open spec fn row_of_served_item(
    items: Seq<TrackableFeedItem>,
    types: Seq<String>,
    n: nat,
    row: (Seq<char>, Seq<char>, Seq<char>, Seq<char>, Option<i64>, Option<i64>),
) -> bool {
    exists|k: int| 0 <= k < n && is_trackable(types, items[k].source_type@) && row == row_for(items[k])
}

/// The planned rows never repeat a recommendation key; every served item
/// of a trackable source type has a row with its key; and every row is the
/// row of a served item of a trackable source type.
pub proof fn lemma_tracked_rows_unique_and_complete(items: Seq<TrackableFeedItem>, types: Seq<String>, n: nat)
    requires
        n <= items.len(),
    ensures
        forall|i: int, j: int| 0 <= i < j < tracked_rows(items, types, n).len()
            ==> (#[trigger] tracked_rows(items, types, n)[i]).0 != (#[trigger] tracked_rows(items, types, n)[j]).0,
        forall|k: int| 0 <= k < n && is_trackable(types, (#[trigger] items[k]).source_type@)
            ==> key_planned(tracked_rows(items, types, n), row_for(items[k]).0),
        forall|i: int| 0 <= i < tracked_rows(items, types, n).len() ==> row_of_served_item(
            items,
            types,
            n,
            #[trigger] tracked_rows(items, types, n)[i],
        ),
    decreases n,
{
    if n > 0 {
        let m = (n - 1) as nat;
        lemma_tracked_rows_unique_and_complete(items, types, m);
        let prev = tracked_rows(items, types, m);
        let rows = tracked_rows(items, types, n);
        let item = items[m as int];
        if is_trackable(types, item.source_type@) && !key_planned(prev, row_for(item).0) {
            assert(rows == prev.push(row_for(item)));
            assert forall|i: int, j: int| 0 <= i < j < rows.len() implies (#[trigger] rows[i]).0 != (#[trigger] rows[j]).0 by {
                if j == prev.len() {
                    assert(rows[i] == prev[i]);
                } else {
                    assert(rows[i] == prev[i] && rows[j] == prev[j]);
                }
            }
            assert forall|k: int| 0 <= k < n && is_trackable(types, (#[trigger] items[k]).source_type@)
                implies key_planned(rows, row_for(items[k]).0) by {
                if k < m {
                    let i = choose|i: int| 0 <= i < prev.len() && prev[i].0 == row_for(items[k]).0;
                    assert(rows[i] == prev[i]);
                } else {
                    assert(rows[prev.len() as int] == row_for(item));
                }
            }
            assert forall|i: int| 0 <= i < rows.len() implies row_of_served_item(items, types, n, #[trigger] rows[i]) by {
                if i < prev.len() {
                    assert(rows[i] == prev[i]);
                    assert(row_of_served_item(items, types, m, prev[i]));
                    let k = choose|k: int| 0 <= k < m && is_trackable(types, items[k].source_type@) && prev[i] == row_for(items[k]);
                    assert(rows[i] == row_for(items[k]));
                } else {
                    assert(rows[i] == row_for(items[m as int]));
                }
            }
        } else {
            assert(rows == prev);
            assert forall|k: int| 0 <= k < n && is_trackable(types, (#[trigger] items[k]).source_type@)
                implies key_planned(rows, row_for(items[k]).0) by {
                if k == m {
                }
            }
            assert forall|i: int| 0 <= i < rows.len() implies row_of_served_item(items, types, n, #[trigger] rows[i]) by {
                assert(row_of_served_item(items, types, m, prev[i]));
                let k = choose|k: int| 0 <= k < m && is_trackable(types, items[k].source_type@) && prev[i] == row_for(items[k]);
                assert(rows[i] == row_for(items[k]));
            }
        }
    }
}

} // verus!

verus! {

/// Item `k` is the first served item of a trackable source type with its
/// recommendation key.
pub open spec fn first_tracked(items: Seq<TrackableFeedItem>, types: Seq<String>, k: int) -> bool {
    &&& is_trackable(types, items[k].source_type@)
    &&& forall|j: int| 0 <= j < k && is_trackable(types, items[j].source_type@)
        ==> row_for(items[j]).0 != row_for(items[k]).0
}

/// `row` is the row of a first item (see `first_tracked`) among the first
/// `n` items.
pub open spec fn row_of_first_item(
    items: Seq<TrackableFeedItem>,
    types: Seq<String>,
    n: nat,
    row: (Seq<char>, Seq<char>, Seq<char>, Seq<char>, Option<i64>, Option<i64>),
) -> bool {
    exists|k: int| 0 <= k < n && first_tracked(items, types, k) && row == row_for(items[k])
}

proof fn lemma_first_tracked_iff(items: Seq<TrackableFeedItem>, types: Seq<String>, m: nat)
    requires
        m < items.len(),
    ensures
        first_tracked(items, types, m as int) <==> (is_trackable(types, items[m as int].source_type@)
            && !key_planned(tracked_rows(items, types, m), row_for(items[m as int]).0)),
        tracked_rows(items, types, m + 1) == if first_tracked(items, types, m as int) {
            tracked_rows(items, types, m).push(row_for(items[m as int]))
        } else {
            tracked_rows(items, types, m)
        },
{
    lemma_tracked_rows_unique_and_complete(items, types, m);
    let prev = tracked_rows(items, types, m);
    let item = items[m as int];
    if is_trackable(types, item.source_type@) && key_planned(prev, row_for(item).0) {
        let i = choose|i: int| 0 <= i < prev.len() && prev[i].0 == row_for(item).0;
        assert(row_of_served_item(items, types, m, prev[i]));
        let j = choose|j: int| 0 <= j < m && is_trackable(types, items[j].source_type@) && prev[i] == row_for(items[j]);
        assert(!first_tracked(items, types, m as int));
    }
    if is_trackable(types, item.source_type@) && !first_tracked(items, types, m as int) {
        let j = choose|j: int| 0 <= j < m && is_trackable(types, items[j].source_type@)
            && row_for(items[j]).0 == row_for(items[m as int]).0;
        assert(is_trackable(types, (items[j]).source_type@));
        assert(key_planned(prev, row_for(items[j]).0));
    }
}

proof fn lemma_rows_from_first_items(items: Seq<TrackableFeedItem>, types: Seq<String>, n: nat)
    requires
        n <= items.len(),
    ensures
        forall|i: int| 0 <= i < tracked_rows(items, types, n).len()
            ==> row_of_first_item(items, types, n, #[trigger] tracked_rows(items, types, n)[i]),
    decreases n,
{
    if n > 0 {
        let m = (n - 1) as nat;
        lemma_rows_from_first_items(items, types, m);
        lemma_first_tracked_iff(items, types, m);
        let prev = tracked_rows(items, types, m);
        let rows = tracked_rows(items, types, n);
        assert forall|i: int| 0 <= i < rows.len() implies row_of_first_item(items, types, n, #[trigger] rows[i]) by {
            if i < prev.len() {
                assert(rows[i] == prev[i]);
                assert(row_of_first_item(items, types, m, prev[i]));
                let k = choose|k: int| 0 <= k < m && first_tracked(items, types, k) && prev[i] == row_for(items[k]);
                assert(rows[i] == row_for(items[k]));
                assert(first_tracked(items, types, k));
            } else {
                assert(first_tracked(items, types, m as int));
                assert(rows[i] == row_for(items[m as int]));
            }
        }
        assert(rows == tracked_rows(items, types, n));
    } else {
        assert(tracked_rows(items, types, n).len() == 0);
    }
}

proof fn lemma_first_items_have_rows(items: Seq<TrackableFeedItem>, types: Seq<String>, n: nat)
    requires
        n <= items.len(),
    ensures
        forall|k: int| 0 <= k < n && #[trigger] first_tracked(items, types, k) ==> exists|i: int|
            0 <= i < tracked_rows(items, types, n).len() && tracked_rows(items, types, n)[i] == row_for(items[k]),
    decreases n,
{
    if n > 0 {
        let m = (n - 1) as nat;
        lemma_first_items_have_rows(items, types, m);
        lemma_first_tracked_iff(items, types, m);
        let prev = tracked_rows(items, types, m);
        let rows = tracked_rows(items, types, n);
        assert forall|k: int| 0 <= k < n && #[trigger] first_tracked(items, types, k) implies exists|i: int|
            0 <= i < rows.len() && rows[i] == row_for(items[k]) by {
            if k < m {
                let i = choose|i: int| 0 <= i < prev.len() && prev[i] == row_for(items[k]);
                assert(rows[i] == prev[i]);
            } else {
                assert(rows[prev.len() as int] == row_for(items[k]));
            }
        }
    }
}

#[verifier::rlimit(40)]
proof fn lemma_rows_in_item_order(items: Seq<TrackableFeedItem>, types: Seq<String>, n: nat)
    requires
        n <= items.len(),
    ensures
        forall|i: int, j: int, k1: int, k2: int|
            #![trigger tracked_rows(items, types, n)[i], tracked_rows(items, types, n)[j], first_tracked(items, types, k1), first_tracked(items, types, k2)]
            0 <= i < j < tracked_rows(items, types, n).len() && 0 <= k1 < n && 0 <= k2 < n
                && first_tracked(items, types, k1) && first_tracked(items, types, k2)
                && tracked_rows(items, types, n)[i] == row_for(items[k1])
                && tracked_rows(items, types, n)[j] == row_for(items[k2]) ==> k1 < k2,
    decreases n,
{
    if n > 0 {
        let m = (n - 1) as nat;
        lemma_rows_in_item_order(items, types, m);
        lemma_first_tracked_iff(items, types, m);
        lemma_tracked_rows_unique_and_complete(items, types, n);
        let prev = tracked_rows(items, types, m);
        let rows = tracked_rows(items, types, n);
        assert forall|i: int, j: int, k1: int, k2: int|
            #![trigger rows[i], rows[j], first_tracked(items, types, k1), first_tracked(items, types, k2)]
            0 <= i < j < rows.len() && 0 <= k1 < n && 0 <= k2 < n
                && first_tracked(items, types, k1) && first_tracked(items, types, k2)
                && rows[i] == row_for(items[k1])
                && rows[j] == row_for(items[k2]) implies k1 < k2 by {
            if k1 == k2 {
                assert(rows[i].0 == rows[j].0);
            } else if k1 == m as int || k2 == m as int {
                // The row of item `m` is the last one, and no other row has its key.
                lemma_tracked_rows_unique_and_complete(items, types, m);
                if j < prev.len() {
                    let kk = if k1 == m as int { i } else { j };
                    assert(rows[kk] == prev[kk]);
                    assert(row_of_served_item(items, types, m, prev[kk]));
                    let w = choose|w: int| 0 <= w < m && is_trackable(types, items[w].source_type@) && prev[kk] == row_for(items[w]);
                    assert(row_for(items[w]).0 == row_for(items[m as int]).0);
                } else if k1 == m as int {
                    assert(rows[j] == row_for(items[m as int]));
                    assert(rows[i].0 == rows[j].0);
                }
            } else if j == prev.len() {
                assert(rows[j] == row_for(items[m as int]));
                assert(first_tracked(items, types, m as int));
                assert(row_for(items[k2]).0 == row_for(items[m as int]).0);
            } else {
                assert(rows[i] == prev[i] && rows[j] == prev[j]);
                assert(prev[i] == row_for(items[k1]) && prev[j] == row_for(items[k2]));
                if k1 >= m as int || k2 >= m as int {
                } else {
                    assert(first_tracked(items, types, k1) && first_tracked(items, types, k2));
                }
            }
        }
    }
}

/// The planned rows are exactly the rows of the first served items of a
/// trackable source type for each recommendation key, in the order those
/// items were served: every row is the row of such an item, every such
/// item has its row, and rows come in the order of their items.
pub proof fn lemma_tracked_rows_follow_first_items(items: Seq<TrackableFeedItem>, types: Seq<String>, n: nat)
    requires
        n <= items.len(),
    ensures
        forall|i: int| 0 <= i < tracked_rows(items, types, n).len()
            ==> row_of_first_item(items, types, n, #[trigger] tracked_rows(items, types, n)[i]),
        forall|k: int| 0 <= k < n && #[trigger] first_tracked(items, types, k) ==> exists|i: int|
            0 <= i < tracked_rows(items, types, n).len() && tracked_rows(items, types, n)[i] == row_for(items[k]),
        forall|i: int, j: int, k1: int, k2: int|
            #![trigger tracked_rows(items, types, n)[i], tracked_rows(items, types, n)[j], first_tracked(items, types, k1), first_tracked(items, types, k2)]
            0 <= i < j < tracked_rows(items, types, n).len() && 0 <= k1 < n && 0 <= k2 < n
                && first_tracked(items, types, k1) && first_tracked(items, types, k2)
                && tracked_rows(items, types, n)[i] == row_for(items[k1])
                && tracked_rows(items, types, n)[j] == row_for(items[k2]) ==> k1 < k2,
{
    lemma_rows_from_first_items(items, types, n);
    lemma_first_items_have_rows(items, types, n);
    lemma_rows_in_item_order(items, types, n);
}

} // verus!
