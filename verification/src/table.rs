//! A small keyed list: rows found by their key, in the order they came.
//!
//! At most the first row of a key is ever found, and putting a row replaces
//! the row of its key, so a table built by its own operations holds one row
//! per key.

use vstd::prelude::*;

verus! {

/// A row that carries its own key.
///
/// Rows are told apart by their name, which is mathematical data; a key is
/// what a caller holds in its hands to ask for a row.  For an identifier
/// the two are the same; for a string the name is its text.
pub trait Keyed {
    type Key;

    type Name;

    /// The name of the row.
    spec fn key(&self) -> Self::Name;

    /// The name that a key asks for.
    spec fn name_of(key: &Self::Key) -> Self::Name;

    /// A key that asks for the row.
    fn id(&self) -> (r: Self::Key)
        ensures
            Self::name_of(&r) == self.key(),
    ;

    /// Whether `key` asks for the row.
    fn has_key(&self, key: &Self::Key) -> (r: bool)
        ensures
            r == (self.key() == Self::name_of(key)),
    ;
}

/// The keys of `rows`, in order.
pub open spec fn keys<T: Keyed>(rows: Seq<T>) -> Seq<T::Name> {
    rows.map_values(|r: T| r.key())
}

/// Position of the first row of `key`.
pub open spec fn position<T: Keyed>(rows: Seq<T>, key: T::Name) -> Option<int> {
    keys(rows).index_of_first(key)
}

/// The first row of `key`.
pub open spec fn lookup<T: Keyed>(rows: Seq<T>, key: T::Name) -> Option<T> {
    match position(rows, key) {
        Some(i) => Some(rows[i]),
        None => None,
    }
}

/// `rows` with `row` in the place of the first row of its key, or at the
/// end where there is none.
pub open spec fn put<T: Keyed>(rows: Seq<T>, row: T) -> Seq<T> {
    match position(rows, row.key()) {
        Some(i) => rows.update(i, row),
        None => rows.push(row),
    }
}

/// `rows` without the first row of `key`.
pub open spec fn without<T: Keyed>(rows: Seq<T>, key: T::Name) -> Seq<T> {
    match position(rows, key) {
        Some(i) => rows.remove(i),
        None => rows,
    }
}

/// No two rows share a key.
pub open spec fn distinct<T: Keyed>(rows: Seq<T>) -> bool {
    keys(rows).no_duplicates()
}

/// The first row of a key stands where no earlier row has that key.
pub proof fn lemma_position<T: Keyed>(rows: Seq<T>, key: T::Name, i: int)
    requires
        0 <= i < rows.len(),
        rows[i].key() == key,
        forall|j: int| 0 <= j < i ==> (#[trigger] rows[j]).key() != key,
    ensures
        position(rows, key) == Some(i),
{
    let ks = keys(rows);
    ks.index_of_first_ensures(key);
    assert(ks[i] == key);
    match ks.index_of_first(key) {
        Some(f) => {
            if f < i {
                assert(rows[f].key() != key);
            } else if i < f {
                assert(ks[i] != key);
            }
        },
        None => {},
    }
}

/// A key that no row has is found nowhere.
pub proof fn lemma_absent<T: Keyed>(rows: Seq<T>, key: T::Name)
    requires
        forall|j: int| 0 <= j < rows.len() ==> (#[trigger] rows[j]).key() != key,
    ensures
        position(rows, key) is None,
{
    let ks = keys(rows);
    ks.index_of_first_ensures(key);
    match ks.index_of_first(key) {
        Some(f) => {
            assert(rows[f].key() != key);
        },
        None => {},
    }
}

/// What a found position says of the rows.
pub proof fn lemma_position_found<T: Keyed>(rows: Seq<T>, key: T::Name)
    ensures
        match position(rows, key) {
            Some(i) => 0 <= i < rows.len() && rows[i].key() == key && forall|j: int|
                0 <= j < i ==> (#[trigger] rows[j]).key() != key,
            None => forall|j: int| 0 <= j < rows.len() ==> (#[trigger] rows[j]).key() != key,
        },
{
    let ks = keys(rows);
    ks.index_of_first_ensures(key);
    match ks.index_of_first(key) {
        Some(i) => {
            assert forall|j: int| 0 <= j < i implies (#[trigger] rows[j]).key() != key by {
                assert(ks[j] != key);
            }
        },
        None => {
            assert forall|j: int| 0 <= j < rows.len() implies (#[trigger] rows[j]).key()
                != key by {
                assert(ks[j] == rows[j].key());
                assert(ks.contains(ks[j]));
            }
        },
    }
}

/// A row that was put is the row found under its key.
pub proof fn lemma_put_lookup<T: Keyed>(rows: Seq<T>, row: T)
    ensures
        lookup(put(rows, row), row.key()) == Some(row),
{
    lemma_position_found(rows, row.key());
    let p = put(rows, row);
    match position(rows, row.key()) {
        Some(f) => {
            assert(p[f] == row);
            assert forall|j: int| 0 <= j < f implies (#[trigger] p[j]).key() != row.key() by {
                assert(p[j] == rows[j]);
            }
            lemma_position(p, row.key(), f);
        },
        None => {
            assert forall|j: int| 0 <= j < rows.len() implies (#[trigger] p[j]).key()
                != row.key() by {
                assert(p[j] == rows[j]);
            }
            lemma_position(p, row.key(), rows.len() as int);
        },
    }
}

/// Putting a row and taking a row out leave the rows of other names as
/// they are.
pub proof fn lemma_other_rows<T: Keyed>(rows: Seq<T>, row: T, gone: T::Name, other: T::Name)
    ensures
        other != row.key() ==> lookup(put(rows, row), other) == lookup(rows, other),
        other != gone ==> lookup(without(rows, gone), other) == lookup(rows, other),
{
    lemma_position_found(rows, other);
    lemma_position_found(rows, row.key());
    lemma_position_found(rows, gone);
    if other != row.key() {
        let p = put(rows, row);
        match position(rows, other) {
            Some(i) => {
                assert(p[i] == rows[i]);
                assert forall|j: int| 0 <= j < i implies (#[trigger] p[j]).key() != other by {
                    if position(rows, row.key()) == Some(j) {
                    } else {
                        assert(p[j] == rows[j]);
                    }
                }
                lemma_position(p, other, i);
            },
            None => {
                assert forall|j: int| 0 <= j < p.len() implies (#[trigger] p[j]).key() != other by {
                    if position(rows, row.key()) == Some(j) || j >= rows.len() {
                    } else {
                        assert(p[j] == rows[j]);
                    }
                }
                lemma_absent(p, other);
            },
        }
    }
    if other != gone {
        let w = without(rows, gone);
        match position(rows, gone) {
            None => {},
            Some(f) => match position(rows, other) {
                Some(i) => {
                    let i1 = if i < f {
                        i
                    } else {
                        i - 1
                    };
                    assert(w[i1] == rows[i]);
                    assert forall|j: int| 0 <= j < i1 implies (#[trigger] w[j]).key() != other by {
                        let j0 = if j < f {
                            j
                        } else {
                            j + 1
                        };
                        assert(w[j] == rows[j0]);
                    }
                    lemma_position(w, other, i1);
                },
                None => {
                    assert forall|j: int| 0 <= j < w.len() implies (#[trigger] w[j]).key()
                        != other by {
                        let j0 = if j < f {
                            j
                        } else {
                            j + 1
                        };
                        assert(w[j] == rows[j0]);
                    }
                    lemma_absent(w, other);
                },
            },
        }
    }
}

/// Putting a row and taking one out keep the keys of a table apart, and a
/// key that was taken out of such a table is found no more.
pub proof fn lemma_table_distinct<T: Keyed>(rows: Seq<T>, row: T, key: T::Name)
    requires
        distinct(rows),
    ensures
        distinct(put(rows, row)),
        distinct(without(rows, key)),
        lookup(put(rows, row), row.key()) == Some(row),
        lookup(without(rows, key), key) is None,
{
    lemma_put_lookup(rows, row);
    lemma_position_found(rows, row.key());
    lemma_position_found(rows, key);
    let p = put(rows, row);
    let w = without(rows, key);
    assert forall|i: int, j: int|
        0 <= i < keys(p).len() && 0 <= j < keys(p).len() && i != j implies keys(p)[i] != keys(
        p,
    )[j] by {
        match position(rows, row.key()) {
            Some(f) => {
                assert(keys(rows)[f] == row.key());
                if i != f && j != f {
                    assert(keys(rows)[i] != keys(rows)[j]);
                } else if i == f {
                    assert(keys(rows)[j] != keys(rows)[f]);
                } else {
                    assert(keys(rows)[i] != keys(rows)[f]);
                }
            },
            None => {
                if i < rows.len() && j < rows.len() {
                    assert(keys(rows)[i] != keys(rows)[j]);
                } else if i < rows.len() {
                    assert(rows[i].key() != row.key());
                } else {
                    assert(rows[j].key() != row.key());
                }
            },
        }
    }
    assert forall|i: int, j: int|
        0 <= i < keys(w).len() && 0 <= j < keys(w).len() && i != j implies keys(w)[i] != keys(
        w,
    )[j] by {
        match position(rows, key) {
            Some(f) => {
                let i0 = if i < f {
                    i
                } else {
                    i + 1
                };
                let j0 = if j < f {
                    j
                } else {
                    j + 1
                };
                assert(keys(rows)[i0] != keys(rows)[j0]);
            },
            None => {},
        }
    }
    match position(rows, row.key()) {
        Some(f) => {
            assert(p[f] == row);
            assert forall|j: int| 0 <= j < f implies (#[trigger] p[j]).key() != row.key() by {
                assert(p[j] == rows[j]);
            }
            lemma_position(p, row.key(), f);
        },
        None => {
            assert forall|j: int| 0 <= j < rows.len() implies (#[trigger] p[j]).key()
                != row.key() by {
                assert(p[j] == rows[j]);
            }
            lemma_position(p, row.key(), rows.len() as int);
        },
    }
    match position(rows, key) {
        Some(f) => {
            assert forall|j: int| 0 <= j < w.len() implies (#[trigger] w[j]).key() != key by {
                let j0 = if j < f {
                    j
                } else {
                    j + 1
                };
                assert(w[j] == rows[j0]);
                assert(keys(rows)[j0] != keys(rows)[f]);
            }
            lemma_absent(w, key);
        },
        None => {},
    }
}

/// The list itself.
pub struct Table<T> {
    rows: Vec<T>,
}

impl<T: Keyed> View for Table<T> {
    type V = Seq<T>;

    closed spec fn view(&self) -> Seq<T> {
        self.rows@
    }
}

impl<T: Keyed> Table<T> {
    /// A table without rows.
    pub fn new() -> (r: Table<T>)
        ensures
            r@ == Seq::<T>::empty(),
    {
        Table { rows: Vec::new() }
    }

    /// Number of rows.
    pub fn len(&self) -> (r: usize)
        ensures
            r == self@.len(),
    {
        self.rows.len()
    }

    /// The table of the given rows.
    pub fn from_rows(rows: Vec<T>) -> (r: Table<T>)
        ensures
            r@ == rows@,
    {
        Table { rows }
    }

    /// The rows of the table, taken out of it.
    pub fn into_rows(self) -> (r: Vec<T>)
        ensures
            r@ == self@,
    {
        self.rows
    }

    /// The rows, in order.
    pub fn rows(&self) -> (r: &Vec<T>)
        ensures
            r@ == self@,
    {
        &self.rows
    }

    /// The row at position `i`.
    pub fn row(&self, i: usize) -> (r: &T)
        requires
            i < self@.len(),
        ensures
            *r == self@[i as int],
    {
        &self.rows[i]
    }

    /// Position of the first row of `key`.
    pub fn find(&self, key: &T::Key) -> (r: Option<usize>)
        ensures
            match r {
                Some(i) => position(self@, T::name_of(key)) == Some(i as int) && i < self@.len(),
                None => position(self@, T::name_of(key)) is None,
            },
    {
        let mut i: usize = 0;
        while i < self.rows.len()
            invariant
                i <= self.rows.len(),
                forall|j: int| 0 <= j < i ==> (#[trigger] self.rows@[j]).key() != T::name_of(key),
            decreases self.rows.len() - i,
        {
            if self.rows[i].has_key(key) {
                proof {
                    lemma_position(self.rows@, T::name_of(key), i as int);
                }
                return Some(i);
            }
            i += 1;
        }
        proof {
            lemma_absent(self.rows@, T::name_of(key));
        }
        None
    }

    /// The first row of `key`.
    pub fn get(&self, key: &T::Key) -> (r: Option<&T>)
        ensures
            match r {
                Some(row) => lookup(self@, T::name_of(key)) == Some(*row) && row.key()
                    == T::name_of(key),
                None => lookup(self@, T::name_of(key)) is None,
            },
    {
        proof {
            lemma_position_found(self@, T::name_of(key));
        }
        match self.find(key) {
            Some(i) => Some(&self.rows[i]),
            None => None,
        }
    }

    /// Puts `row` in the place of the first row of its key, which is
    /// returned, or at the end where there is none.
    pub fn put(&mut self, row: T) -> (r: Option<T>)
        ensures
            final(self)@ == put(old(self)@, row),
            r == lookup(old(self)@, row.key()),
    {
        let key = row.id();
        match self.find(&key) {
            Some(i) => {
                let previous = self.rows.remove(i);
                self.rows.insert(i, row);
                proof {
                    assert(self.rows@ =~= old(self).rows@.update(i as int, row));
                }
                Some(previous)
            },
            None => {
                self.rows.push(row);
                None
            },
        }
    }

    /// Takes the first row of `key` out and returns it.
    pub fn take(&mut self, key: &T::Key) -> (r: Option<T>)
        ensures
            final(self)@ == without(old(self)@, T::name_of(key)),
            r == lookup(old(self)@, T::name_of(key)),
            r matches Some(row) ==> row.key() == T::name_of(key),
    {
        proof {
            lemma_position_found(self@, T::name_of(key));
        }
        match self.find(key) {
            Some(i) => Some(self.rows.remove(i)),
            None => None,
        }
    }

    /// Drops every row.
    pub fn clear(&mut self)
        ensures
            final(self)@ == Seq::<T>::empty(),
    {
        self.rows.clear();
    }
}

} // verus!
