//! Tables of rows that are found by a key.
use crate::model::option_view;
use crate::model::views;
use crate::model::Duplicate;
use vstd::prelude::*;

verus! {

/// The rows of a table: each has a key, a list of texts.
pub trait Row: Duplicate {
    /// The key of a row.
    spec fn key(row: Self::V) -> Seq<Seq<char>>;

    /// Whether `key` is the row's key.
    fn has_key(&self, key: &Vec<&str>) -> (result: bool)
        ensures
            result == (Self::key(self@) == texts(key@)),
    ;

    /// Whether two rows have the same key.
    fn same_key(&self, other: &Self) -> (result: bool)
        ensures
            result == (Self::key(self@) == Self::key(other@)),
    ;
}

/// The characters of each of `key`.
pub open spec fn texts(key: Seq<&str>) -> Seq<Seq<char>> {
    key.map_values(|part: &str| part@)
}

/// The index of the first row with the key.
pub open spec fn position<R: Row>(rows: Seq<R::V>, key: Seq<Seq<char>>) -> Option<int>
    decreases rows.len(),
{
    if rows.len() == 0 {
        None
    } else {
        match position::<R>(rows.drop_last(), key) {
            Some(i) => Some(i),
            None => if R::key(rows.last()) == key {
                Some(rows.len() - 1)
            } else {
                None
            },
        }
    }
}

/// The first row with the key.
pub open spec fn lookup<R: Row>(rows: Seq<R::V>, key: Seq<Seq<char>>) -> Option<R::V> {
    match position::<R>(rows, key) {
        Some(i) => Some(rows[i]),
        None => None,
    }
}

/// The table after `row` has taken the place of the row with its key, or has
/// been added as the last row where there is none.
pub open spec fn put<R: Row>(rows: Seq<R::V>, row: R::V) -> Seq<R::V> {
    match position::<R>(rows, R::key(row)) {
        Some(i) => rows.update(i, row),
        None => rows.push(row),
    }
}

/// No two rows have the same key.
pub open spec fn distinct_keys<R: Row>(rows: Seq<R::V>) -> bool {
    forall|i: int, j: int|
        0 <= i < j < rows.len() ==> R::key(#[trigger] rows[i]) != R::key(#[trigger] rows[j])
}

/// What [`position`] finds is the first row with the key, and it misses none.
pub proof fn lemma_position<R: Row>(rows: Seq<R::V>, key: Seq<Seq<char>>)
    ensures
        match position::<R>(rows, key) {
            Some(i) => {
                &&& 0 <= i < rows.len()
                &&& R::key(rows[i]) == key
                &&& forall|j: int| 0 <= j < i ==> R::key(#[trigger] rows[j]) != key
            },
            None => forall|j: int| 0 <= j < rows.len() ==> R::key(#[trigger] rows[j]) != key,
        },
    decreases rows.len(),
{
    if rows.len() > 0 {
        let front = rows.drop_last();
        lemma_position::<R>(front, key);
        match position::<R>(front, key) {
            Some(i) => {
                assert(front[i] == rows[i]);
                assert forall|j: int| 0 <= j < i implies R::key(#[trigger] rows[j]) != key by {
                    assert(front[j] == rows[j]);
                }
            },
            None => {
                assert forall|j: int| 0 <= j < front.len() implies R::key(#[trigger] rows[j])
                    != key by {
                    assert(front[j] == rows[j]);
                }
            },
        }
    }
}

/// A row that is the first with its key is found where it stands.
pub proof fn lemma_found<R: Row>(rows: Seq<R::V>, key: Seq<Seq<char>>, i: int)
    requires
        0 <= i < rows.len(),
        R::key(rows[i]) == key,
        forall|j: int| 0 <= j < i ==> R::key(#[trigger] rows[j]) != key,
    ensures
        position::<R>(rows, key) == Some(i),
{
    lemma_position::<R>(rows, key);
}

/// What is read of a table under a key is what was last put there, and putting
/// a row under one key leaves what is read under every other key as it was.
pub proof fn lemma_put_lookup<R: Row>(rows: Seq<R::V>, row: R::V, key: Seq<Seq<char>>)
    ensures
        lookup::<R>(put::<R>(rows, row), key) == if key == R::key(row) {
            Some(row)
        } else {
            lookup::<R>(rows, key)
        },
{
    let after = put::<R>(rows, row);
    lemma_position::<R>(rows, R::key(row));
    lemma_position::<R>(rows, key);
    lemma_position::<R>(after, key);
    if key == R::key(row) {
        match position::<R>(rows, key) {
            Some(i) => {
                assert(after[i] == row);
                assert forall|j: int| 0 <= j < i implies R::key(#[trigger] after[j]) != key by {
                    assert(after[j] == rows[j]);
                }
                lemma_found::<R>(after, key, i);
            },
            None => {
                let n = rows.len() as int;
                assert(after[n] == row);
                assert forall|j: int| 0 <= j < n implies R::key(#[trigger] after[j]) != key by {
                    assert(after[j] == rows[j]);
                }
                lemma_found::<R>(after, key, n);
            },
        }
    } else {
        match position::<R>(rows, key) {
            Some(i) => {
                assert(after[i] == rows[i]);
                assert forall|j: int| 0 <= j < i implies R::key(#[trigger] after[j]) != key by {
                    if after[j] != row {
                        assert(after[j] == rows[j]);
                    }
                }
                lemma_found::<R>(after, key, i);
            },
            None => {
                match position::<R>(after, key) {
                    Some(i) => {
                        if after[i] != row {
                            assert(after[i] == rows[i]);
                        }
                    },
                    None => {},
                }
            },
        }
    }
}

/// A row that is put under a key takes the place of the row that was there, or
/// comes last; every other row keeps its place.
pub proof fn lemma_put_position<R: Row>(rows: Seq<R::V>, row: R::V, key: Seq<Seq<char>>)
    ensures
        position::<R>(put::<R>(rows, row), key) == match position::<R>(rows, key) {
            Some(i) => Some(i),
            None => if key == R::key(row) {
                Some(rows.len() as int)
            } else {
                None
            },
        },
{
    let after = put::<R>(rows, row);
    lemma_position::<R>(rows, R::key(row));
    lemma_position::<R>(rows, key);
    lemma_position::<R>(after, key);
    match position::<R>(rows, key) {
        Some(i) => {
            assert(R::key(after[i]) == key);
            assert forall|j: int| 0 <= j < i implies R::key(#[trigger] after[j]) != key by {
                if after[j] != row {
                    assert(after[j] == rows[j]);
                } else {
                    assert(R::key(rows[j]) != key);
                    assert(position::<R>(rows, R::key(row)) is Some);
                }
            }
            lemma_found::<R>(after, key, i);
        },
        None => {
            if key == R::key(row) {
                let n = rows.len() as int;
                assert(after[n] == row);
                assert forall|j: int| 0 <= j < n implies R::key(#[trigger] after[j]) != key by {
                    assert(after[j] == rows[j]);
                }
                lemma_found::<R>(after, key, n);
            } else {
                lemma_put_lookup::<R>(rows, row, key);
            }
        },
    }
}

/// A table with distinct keys keeps them when a row is put.
pub proof fn lemma_put_distinct<R: Row>(rows: Seq<R::V>, row: R::V)
    requires
        distinct_keys::<R>(rows),
    ensures
        distinct_keys::<R>(put::<R>(rows, row)),
{
    lemma_position::<R>(rows, R::key(row));
    let after = put::<R>(rows, row);
    assert forall|i: int, j: int| 0 <= i < j < after.len() implies R::key(#[trigger] after[i])
        != R::key(#[trigger] after[j]) by {
        match position::<R>(rows, R::key(row)) {
            Some(k) => {
                if i != k && j != k {
                    assert(after[i] == rows[i] && after[j] == rows[j]);
                } else if i == k {
                    assert(after[j] == rows[j] && R::key(rows[k]) == R::key(row));
                } else {
                    assert(after[i] == rows[i] && R::key(rows[k]) == R::key(row));
                }
            },
            None => {
                assert(after[i] == rows[i]);
                if j < rows.len() {
                    assert(after[j] == rows[j]);
                }
            },
        }
    }
}

/// Where the row with `key` stands.
pub fn find<R: Row>(rows: &Vec<R>, key: &Vec<&str>) -> (found: Option<usize>)
    ensures
        match found {
            Some(i) => position::<R>(views(rows@), texts(key@)) == Some(i as int) && i < rows@.len(),
            None => position::<R>(views(rows@), texts(key@)) is None,
        },
{
    let ghost model = views(rows@);
    let mut i: usize = 0;
    while i < rows.len()
        invariant
            i <= rows@.len(),
            model == views(rows@),
            forall|j: int| 0 <= j < i ==> R::key(#[trigger] model[j]) != texts(key@),
        decreases rows@.len() - i,
    {
        assert(model[i as int] == rows@[i as int]@);
        if rows[i].has_key(key) {
            proof {
                lemma_found::<R>(model, texts(key@), i as int);
            }
            return Some(i);
        }
        i += 1;
    }
    proof {
        lemma_position::<R>(model, texts(key@));
    }
    None
}

/// A copy of the row with `key`.
pub fn fetch<R: Row>(rows: &Vec<R>, key: &Vec<&str>) -> (row: Option<R>)
    ensures
        option_view(row) == lookup::<R>(views(rows@), texts(key@)),
{
    match find(rows, key) {
        Some(i) => {
            assert(views(rows@)[i as int] == rows@[i as int]@);
            Some(rows[i].duplicate())
        },
        None => None,
    }
}

/// Put `row` in the place of the row with its key, or add it.
pub fn replace<R: Row>(rows: &mut Vec<R>, row: R)
    ensures
        views(final(rows)@) == put::<R>(views(old(rows)@), row@),
{
    let ghost model = views(rows@);
    let ghost key = R::key(row@);
    let mut i: usize = 0;
    while i < rows.len()
        invariant
            i <= rows@.len(),
            model == views(rows@),
            key == R::key(row@),
            forall|j: int| 0 <= j < i ==> R::key(#[trigger] model[j]) != key,
            *rows == *old(rows),
        decreases rows@.len() - i,
    {
        assert(model[i as int] == rows@[i as int]@);
        if rows[i].same_key(&row) {
            proof {
                lemma_found::<R>(model, key, i as int);
            }
            rows.set(i, row);
            assert(views(rows@) =~= model.update(i as int, row@));
            return;
        }
        i += 1;
    }
    proof {
        lemma_position::<R>(model, key);
    }
    rows.push(row);
    assert(views(rows@) =~= model.push(row@));
}

} // verus!
