//! Pairing fetched rows by key: rows are identified by integer keys (a
//! UUID as its 128-bit value), and a row takes the first fetched row whose
//! key it names.
use vstd::prelude::*;

verus! {

/// The position of the first key equal to `key`.
pub open spec fn first_position(key: u128, keys: Seq<u128>) -> Option<int>
    decreases keys.len(),
{
    if keys.len() == 0 {
        None
    } else if keys[0] == key {
        Some(0)
    } else {
        match first_position(key, keys.drop_first()) {
            Some(p) => Some(p + 1),
            None => None,
        }
    }
}

/// A key found at `i` and nowhere before is first found at `i`.
pub proof fn lemma_first_position_at(key: u128, keys: Seq<u128>, i: int)
    requires
        0 <= i < keys.len(),
        keys[i] == key,
        forall|j: int| 0 <= j < i ==> keys[j] != key,
    ensures
        first_position(key, keys) == Some(i),
    decreases keys.len(),
{
    if i > 0 {
        let rest = keys.drop_first();
        assert forall|j: int| 0 <= j < i - 1 implies rest[j] != key by {
            assert(rest[j] == keys[j + 1]);
        }
        lemma_first_position_at(key, rest, i - 1);
    }
}

/// A key found nowhere has no first position.
pub proof fn lemma_first_position_absent(key: u128, keys: Seq<u128>)
    requires
        forall|j: int| 0 <= j < keys.len() ==> keys[j] != key,
    ensures
        first_position(key, keys) is None,
    decreases keys.len(),
{
    if keys.len() > 0 {
        let rest = keys.drop_first();
        assert forall|j: int| 0 <= j < rest.len() implies rest[j] != key by {
            assert(rest[j] == keys[j + 1]);
        }
        lemma_first_position_absent(key, rest);
    }
}

/// A first position holds the key, and no earlier position does.
pub proof fn lemma_first_position_found(key: u128, keys: Seq<u128>)
    ensures
        match first_position(key, keys) {
            Some(i) => 0 <= i < keys.len() && keys[i] == key
                && forall|j: int| 0 <= j < i ==> keys[j] != key,
            None => forall|j: int| 0 <= j < keys.len() ==> keys[j] != key,
        },
    decreases keys.len(),
{
    if keys.len() > 0 {
        let rest = keys.drop_first();
        lemma_first_position_found(key, rest);
        assert forall|j: int| 0 <= j < rest.len() implies rest[j] == keys[j + 1] by {}
        if keys[0] != key {
            match first_position(key, rest) {
                Some(p) => {
                    assert forall|j: int| 0 <= j < p + 1 implies keys[j] != key by {
                        if j > 0 {
                            assert(keys[j] == rest[j - 1]);
                        }
                    }
                },
                None => {
                    assert forall|j: int| 0 <= j < keys.len() implies keys[j] != key by {
                        if j > 0 {
                            assert(keys[j] == rest[j - 1]);
                        }
                    }
                },
            }
        }
    }
}

/// The position of the first key equal to `key`.
pub fn find_first(keys: &Vec<u128>, key: u128) -> (r: Option<usize>)
    ensures
        match r {
            Some(i) => first_position(key, keys@) == Some(i as int),
            None => first_position(key, keys@) is None,
        },
{
    let mut i: usize = 0;
    while i < keys.len()
        invariant
            i <= keys.len(),
            forall|j: int| 0 <= j < i ==> keys@[j] != key,
        decreases keys.len() - i,
    {
        if keys[i] == key {
            proof {
                lemma_first_position_at(key, keys@, i as int);
            }
            return Some(i);
        }
        i = i + 1;
    }
    proof {
        lemma_first_position_absent(key, keys@);
    }
    None
}

/// For each row, in order, the position of the first fetched row with the
/// key it names.
pub open spec fn attached(wanted: Seq<u128>, fetched: Seq<u128>) -> Seq<Option<int>> {
    wanted.map_values(|k: u128| first_position(k, fetched))
}

/// A position as an integer.
pub open spec fn opt_int(p: Option<usize>) -> Option<int> {
    match p {
        Some(i) => Some(i as int),
        None => None,
    }
}

/// For each row, in order, the first fetched row with the key it names.
pub fn attach_first(wanted: &Vec<u128>, fetched: &Vec<u128>) -> (r: Vec<Option<usize>>)
    ensures
        r@.map_values(|p: Option<usize>| opt_int(p)) == attached(wanted@, fetched@),
{
    let mut r: Vec<Option<usize>> = Vec::new();
    let mut i: usize = 0;
    while i < wanted.len()
        invariant
            i <= wanted.len(),
            r.len() == i,
            r@.map_values(|p: Option<usize>| opt_int(p))
                == attached(wanted@.take(i as int), fetched@),
        decreases wanted.len() - i,
    {
        let ghost before = r@;
        let found = find_first(fetched, wanted[i]);
        r.push(found);
        assert forall|k: int| 0 <= k < i + 1 implies r@.map_values(|p: Option<usize>| opt_int(p))[k]
            == #[trigger] attached(wanted@.take(i + 1), fetched@)[k] by {
            if k < i {
                assert(r@[k] == before[k]);
                assert(before.map_values(|p: Option<usize>| opt_int(p))[k] == attached(wanted@.take(i as int), fetched@)[k]);
            }
        }
        assert(r@.map_values(|p: Option<usize>| opt_int(p))
            =~= attached(wanted@.take(i + 1), fetched@));
        i = i + 1;
    }
    assert(wanted@.take(wanted.len() as int) =~= wanted@);
    r
}

/// The rows that have a fetched row with the key they name, in order, each
/// with the position of the first such fetched row; the others are left out.
pub open spec fn matched_pairs(wanted: Seq<u128>, fetched: Seq<u128>) -> Seq<(int, int)>
    decreases wanted.len(),
{
    if wanted.len() == 0 {
        Seq::empty()
    } else {
        let prefix = matched_pairs(wanted.drop_last(), fetched);
        match first_position(wanted.last(), fetched) {
            Some(j) => prefix.push(((wanted.len() - 1) as int, j)),
            None => prefix,
        }
    }
}

/// The rows that have a fetched row with the key they name, each with the
/// position of the first such fetched row (see `matched_pairs`).
pub fn pair_matches(wanted: &Vec<u128>, fetched: &Vec<u128>) -> (r: Vec<(usize, usize)>)
    ensures
        r@.map_values(|p: (usize, usize)| (p.0 as int, p.1 as int)) == matched_pairs(wanted@, fetched@),
{
    let mut r: Vec<(usize, usize)> = Vec::new();
    let mut i: usize = 0;
    assert(wanted@.take(0) =~= Seq::<u128>::empty());
    while i < wanted.len()
        invariant
            i <= wanted.len(),
            r@.map_values(|p: (usize, usize)| (p.0 as int, p.1 as int)) == matched_pairs(wanted@.take(i as int), fetched@),
        decreases wanted.len() - i,
    {
        assert(wanted@.take(i + 1).drop_last() =~= wanted@.take(i as int));
        let ghost before = r@;
        match find_first(fetched, wanted[i]) {
            Some(j) => {
                r.push((i, j));
                assert(r@.map_values(|p: (usize, usize)| (p.0 as int, p.1 as int)) =~= before.map_values(
                    |p: (usize, usize)| (p.0 as int, p.1 as int),
                ).push((i as int, j as int)));
            },
            None => {},
        }
        i = i + 1;
    }
    assert(wanted@.take(wanted.len() as int) =~= wanted@);
    r
}

} // verus!
