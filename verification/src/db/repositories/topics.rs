//! Topics: listing filters and how a topic's contents get their tasks.
use vstd::prelude::*;

verus! {

/// Filters of a topic listing: a search in titles and exact matches on
/// teacher, subject, sub-subject and publication.
#[derive(Debug, Clone)]
pub struct TopicFilters {
    pub search: Option<String>,
    pub teacher_id: Option<String>,
    pub subject_id: Option<i64>,
    pub sub_subject_id: Option<i64>,
    pub is_published: Option<bool>,
}

impl Default for TopicFilters {
    fn default() -> (r: Self)
        ensures
            r.search is None && r.teacher_id is None && r.subject_id is None && r.sub_subject_id is None
                && r.is_published is None,
    {
        TopicFilters { search: None, teacher_id: None, subject_id: None, sub_subject_id: None, is_published: None }
    }
}

/// The positions, in order, of the children whose parent key is `key`.
pub open spec fn children_of(key: u128, child_keys: Seq<u128>) -> Seq<usize>
    decreases child_keys.len(),
{
    if child_keys.len() == 0 {
        Seq::empty()
    } else {
        let prefix = children_of(key, child_keys.drop_last());
        if child_keys.last() == key {
            prefix.push((child_keys.len() - 1) as usize)
        } else {
            prefix
        }
    }
}

fn children_positions(key: u128, child_keys: &Vec<u128>) -> (r: Vec<usize>)
    ensures
        r@ == children_of(key, child_keys@),
{
    let mut r: Vec<usize> = Vec::new();
    let mut j: usize = 0;
    assert(child_keys@.take(0) =~= Seq::<u128>::empty());
    while j < child_keys.len()
        invariant
            j <= child_keys.len(),
            r@ == children_of(key, child_keys@.take(j as int)),
        decreases child_keys.len() - j,
    {
        assert(child_keys@.take(j + 1).drop_last() =~= child_keys@.take(j as int));
        if child_keys[j] == key {
            r.push(j);
        }
        j = j + 1;
    }
    assert(child_keys@.take(child_keys.len() as int) =~= child_keys@);
    r
}

/// For each parent, the positions of its children in child order: each
/// content of a topic gets the tasks that point at it.
pub fn group_children(parent_keys: &Vec<u128>, child_keys: &Vec<u128>) -> (r: Vec<Vec<usize>>)
    ensures
        r.len() == parent_keys.len(),
        forall|i: int| 0 <= i < r.len() ==> (#[trigger] r[i])@ == children_of(parent_keys[i], child_keys@),
{
    let mut r: Vec<Vec<usize>> = Vec::new();
    let mut i: usize = 0;
    while i < parent_keys.len()
        invariant
            i <= parent_keys.len(),
            r.len() == i,
            forall|k: int| 0 <= k < i ==> (#[trigger] r[k])@ == children_of(parent_keys[k], child_keys@),
        decreases parent_keys.len() - i,
    {
        r.push(children_positions(parent_keys[i], child_keys));
        i = i + 1;
    }
    r
}

} // verus!
