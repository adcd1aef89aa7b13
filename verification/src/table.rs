//! A small table from names to values, kept in the order of arrival.
//!
//! It stands where a hash map would: the store keys its index and the disk
//! model its directories by text, and what a lookup answers is all that the
//! contracts of either speak of.
use vstd::prelude::*;

verus! {

/// One row of a [`Table`].
pub struct Row<V> {
    pub key: String,
    pub value: V,
}

/// A table from names to values.
pub struct Table<V> {
    rows: Vec<Row<V>>,
}

/// The value that the last row named `key` holds.
pub open spec fn lookup_in<V>(rows: Seq<Row<V>>, key: Seq<char>) -> Option<V>
    decreases rows.len(),
{
    if rows.len() == 0 {
        None
    } else if rows.last().key@ == key {
        Some(rows.last().value)
    } else {
        lookup_in(rows.drop_last(), key)
    }
}

/// Whether the row `i` is the one that a lookup of `key` answers with.
pub open spec fn answers<V>(rows: Seq<Row<V>>, i: int, key: Seq<char>) -> bool {
    &&& 0 <= i < rows.len()
    &&& rows[i].key@ == key
    &&& forall|j: int| i < j < rows.len() ==> rows[j].key@ != key
}

proof fn lemma_lookup_answer<V>(rows: Seq<Row<V>>, i: int, key: Seq<char>)
    requires
        answers(rows, i, key),
    ensures
        lookup_in(rows, key) == Some(rows[i].value),
    decreases rows.len(),
{
    if i < rows.len() - 1 {
        lemma_lookup_answer(rows.drop_last(), i, key);
    }
}

proof fn lemma_lookup_absent<V>(rows: Seq<Row<V>>, key: Seq<char>)
    requires
        forall|j: int| 0 <= j < rows.len() ==> rows[j].key@ != key,
    ensures
        lookup_in(rows, key) is None,
    decreases rows.len(),
{
    if rows.len() > 0 {
        lemma_lookup_absent(rows.drop_last(), key);
    }
}

proof fn lemma_lookup_present<V>(rows: Seq<Row<V>>, key: Seq<char>)
    requires
        lookup_in(rows, key) is Some,
    ensures
        exists|i: int| 0 <= i < rows.len() && #[trigger] rows[i].key@ == key,
    decreases rows.len(),
{
    if rows.last().key@ == key {
        assert(rows[rows.len() - 1].key@ == key);
    } else {
        lemma_lookup_present(rows.drop_last(), key);
        let i = choose|i: int| 0 <= i < rows.len() - 1 && #[trigger] rows.drop_last()[i].key@ == key;
        assert(rows[i].key@ == key);
    }
}

proof fn lemma_lookup_update<V>(rows: Seq<Row<V>>, i: int, row: Row<V>, key: Seq<char>)
    requires
        answers(rows, i, row.key@),
    ensures
        lookup_in(rows.update(i, row), key) == if key == row.key@ {
            Some(row.value)
        } else {
            lookup_in(rows, key)
        },
    decreases rows.len(),
{
    let updated = rows.update(i, row);
    if i == rows.len() - 1 {
        assert(updated.drop_last() =~= rows.drop_last());
    } else {
        assert(updated.drop_last() =~= rows.drop_last().update(i, row));
        assert(updated.last() == rows.last());
        lemma_lookup_update(rows.drop_last(), i, row, key);
    }
}

impl<V> Table<V> {
    /// The value under `key`, if there is one.
    pub closed spec fn lookup(&self, key: Seq<char>) -> Option<V> {
        lookup_in(self.rows@, key)
    }

    /// Whether there is a value under `key`.
    pub open spec fn contains(&self, key: Seq<char>) -> bool {
        self.lookup(key) is Some
    }

    /// Whether the row `i` holds the value under `key`.
    pub closed spec fn holds(&self, i: usize, key: Seq<char>) -> bool {
        answers(self.rows@, i as int, key)
    }

    /// The table without rows.
    pub fn new() -> (r: Table<V>)
        ensures
            forall|key: Seq<char>| r.lookup(key) is None,
    {
        Table { rows: Vec::new() }
    }

    /// The row that holds the value under `key`.
    pub(crate) fn position(&self, key: &String) -> (r: Option<usize>)
        ensures
            match r {
                Some(i) => self.holds(i, key@) && self.contains(key@),
                None => !self.contains(key@),
            },
    {
        let mut i = self.rows.len();
        while i > 0
            invariant
                i <= self.rows@.len(),
                forall|j: int| i <= j < self.rows@.len() ==> self.rows@[j].key@ != key@,
            decreases i,
        {
            i -= 1;
            if self.rows[i].key == *key {
                proof {
                    lemma_lookup_answer(self.rows@, i as int, key@);
                }
                return Some(i);
            }
        }
        proof {
            lemma_lookup_absent(self.rows@, key@);
        }
        None
    }

    /// The value in the row `i`.
    pub(crate) fn value(&self, i: usize, Ghost(key): Ghost<Seq<char>>) -> (r: &V)
        requires
            self.holds(i, key),
        ensures
            self.lookup(key) == Some(*r),
    {
        proof {
            lemma_lookup_answer(self.rows@, i as int, key);
        }
        &self.rows[i].value
    }

    /// The value under `key`, if there is one.
    pub fn get(&self, key: &String) -> (r: Option<&V>)
        ensures
            match r {
                Some(v) => self.lookup(key@) == Some(*v),
                None => self.lookup(key@) is None,
            },
    {
        match self.position(key) {
            Some(i) => Some(self.value(i, Ghost(key@))),
            None => None,
        }
    }

    /// The value in the row `i`, to be changed in place.
    pub(crate) fn value_mut(&mut self, i: usize, Ghost(key): Ghost<Seq<char>>) -> (r: &mut V)
        requires
            old(self).holds(i, key),
        ensures
            old(self).lookup(key) == Some(*r),
            final(self).holds(i, key),
            forall|k: Seq<char>| #[trigger]
                final(self).lookup(k) == if k == key {
                    Some(*final(r))
                } else {
                    old(self).lookup(k)
                },
    {
        proof {
            lemma_lookup_answer(self.rows@, i as int, key);
            assert forall|k: Seq<char>, value: V| #[trigger]
                lookup_in(
                    self.rows@.update(i as int, Row { key: self.rows@[i as int].key, value }),
                    k,
                ) == if k == key {
                    Some(value)
                } else {
                    lookup_in(self.rows@, k)
                } by {
                lemma_lookup_update(
                    self.rows@,
                    i as int,
                    Row { key: self.rows@[i as int].key, value },
                    k,
                );
            }
        }
        &mut self.rows[i].value
    }

    /// Puts `value` in the row `i`, in place of what was there.
    pub(crate) fn replace(&mut self, i: usize, Ghost(key): Ghost<Seq<char>>, value: V)
        requires
            old(self).holds(i, key),
        ensures
            final(self).holds(i, key),
            forall|k: Seq<char>| #[trigger]
                final(self).lookup(k) == if k == key {
                    Some(value)
                } else {
                    old(self).lookup(k)
                },
    {
        let key_here = self.rows[i].key.clone();
        let row = Row { key: key_here, value };
        assert forall|k: Seq<char>| #[trigger]
            lookup_in(self.rows@.update(i as int, row), k) == if k == key {
                Some(value)
            } else {
                lookup_in(self.rows@, k)
            } by {
            lemma_lookup_update(self.rows@, i as int, row, k);
        }
        self.rows[i] = row;
    }

    /// Puts `value` under `key`, in place of what was there, if anything.
    pub fn insert(&mut self, key: String, value: V)
        ensures
            forall|k: Seq<char>| #[trigger]
                final(self).lookup(k) == if k == key@ {
                    Some(value)
                } else {
                    old(self).lookup(k)
                },
    {
        match self.position(&key) {
            Some(i) => {
                self.replace(i, Ghost(key@), value);
            },
            None => {
                let row = Row { key, value };
                assert(self.rows@.push(row).drop_last() =~= self.rows@);
                self.rows.push(row);
            },
        }
    }

    /// The names under which the table holds a value.
    pub fn keys(&self) -> (r: Vec<String>)
        ensures
            forall|i: int| 0 <= i < r@.len() ==> self.contains(#[trigger] r@[i]@),
            forall|key: Seq<char>|
                self.contains(key) ==> exists|i: int| 0 <= i < r@.len() && #[trigger] r@[i]@ == key,
    {
        let mut names: Vec<String> = Vec::new();
        let mut i: usize = 0;
        while i < self.rows.len()
            invariant
                i <= self.rows@.len(),
                names@.len() == i,
                forall|j: int| 0 <= j < i ==> #[trigger] names@[j]@ == self.rows@[j].key@,
            decreases self.rows@.len() - i,
        {
            names.push(self.rows[i].key.clone());
            i += 1;
        }
        assert forall|j: int| 0 <= j < names@.len() implies self.contains(#[trigger] names@[j]@) by {
            let key = self.rows@[j].key@;
            if self.lookup(key) is None {
                lemma_lookup_absent_means(self.rows@, key, j);
            }
        }
        assert forall|key: Seq<char>| self.contains(key) implies exists|i: int|
            0 <= i < names@.len() && #[trigger] names@[i]@ == key by {
            lemma_lookup_present(self.rows@, key);
            let i = choose|i: int| 0 <= i < self.rows@.len() && #[trigger] self.rows@[i].key@ == key;
            assert(names@[i]@ == key);
        }
        names
    }
}

proof fn lemma_lookup_absent_means<V>(rows: Seq<Row<V>>, key: Seq<char>, j: int)
    requires
        lookup_in(rows, key) is None,
        0 <= j < rows.len(),
    ensures
        rows[j].key@ != key,
    decreases rows.len(),
{
    if j < rows.len() - 1 {
        lemma_lookup_absent_means(rows.drop_last(), key, j);
    }
}

impl Table<String> {
    /// The table as a map from names to texts.
    pub open spec fn texts(&self) -> Map<Seq<char>, Seq<char>> {
        Map::new(|key: Seq<char>| self.contains(key), |key: Seq<char>| self.lookup(key)->0@)
    }

    /// Puts the text `value` under `key`.
    pub fn put(&mut self, key: String, value: String)
        ensures
            final(self).texts() == old(self).texts().insert(key@, value@),
    {
        self.insert(key, value);
        assert(self.texts() =~= old(self).texts().insert(key@, value@));
    }

    /// The text under `key`, if there is one.
    pub fn text(&self, key: &str) -> (r: Option<String>)
        ensures
            match r {
                Some(value) => self.texts().contains_key(key@) && self.texts()[key@] == value@,
                None => !self.texts().contains_key(key@),
            },
    {
        let key = key.to_owned();
        match self.get(&key) {
            Some(value) => Some(value.clone()),
            None => None,
        }
    }

    /// The rows of the table in the order of their arrival, each the name
    /// and the text under it.
    pub closed spec fn rows(&self) -> Seq<(Seq<char>, Seq<char>)> {
        Seq::new(self.rows@.len(), |i: int| (self.rows@[i].key@, self.rows@[i].value@))
    }

    /// The table of texts without rows.
    pub fn empty() -> (r: Table<String>)
        ensures
            r.texts() == Map::<Seq<char>, Seq<char>>::empty(),
            r.rows() == Seq::<(Seq<char>, Seq<char>)>::empty(),
    {
        let table: Table<String> = Table { rows: Vec::new() };
        assert(table.texts() =~= Map::<Seq<char>, Seq<char>>::empty());
        assert(table.rows() =~= Seq::<(Seq<char>, Seq<char>)>::empty());
        table
    }

    /// The rows of the table in the order of their arrival.
    pub fn pairs(&self) -> (r: Vec<(String, String)>)
        ensures
            r@.len() == self.rows().len(),
            forall|i: int|
                0 <= i < r@.len() ==> ((#[trigger] r@[i]).0@, r@[i].1@) == self.rows()[i],
    {
        let mut pairs: Vec<(String, String)> = Vec::new();
        let mut i: usize = 0;
        while i < self.rows.len()
            invariant
                i <= self.rows@.len(),
                pairs@.len() == i,
                forall|j: int|
                    0 <= j < i ==> ((#[trigger] pairs@[j]).0@, pairs@[j].1@) == self.rows()[j],
            decreases self.rows@.len() - i,
        {
            pairs.push((self.rows[i].key.clone(), self.rows[i].value.clone()));
            i += 1;
        }
        pairs
    }

    /// Puts the text `value` under a name that the table does not hold
    /// yet: a row is added at the end.
    pub(crate) fn put_new(&mut self, key: String, value: String)
        requires
            !old(self).texts().contains_key(key@),
        ensures
            final(self).texts() == old(self).texts().insert(key@, value@),
            final(self).rows() == old(self).rows().push((key@, value@)),
    {
        let found = self.position(&key);
        assert(found is None);
        let row = Row { key, value };
        assert(self.rows@.push(row).drop_last() =~= self.rows@);
        self.rows.push(row);
        assert(self.rows() =~= old(self).rows().push((key@, value@)));
        assert(self.texts() =~= old(self).texts().insert(key@, value@));
    }
}

} // verus!
