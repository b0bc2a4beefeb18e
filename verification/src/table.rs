use crate::error::Error;
use vstd::prelude::*;

verus! {

/// A row that a [`Table`] can hold. Its view is the mathematical value that
/// contracts speak of, and its primary key is read off that view.
pub trait Record: View + Sized {
    /// The primary key of a row with view `v`.
    spec fn key_of(v: Self::V) -> Seq<char>;

    /// The row's primary key.
    fn key(&self) -> (k: &String)
        ensures
            k@ == Self::key_of(self@),
    ;

    /// A copy of the row; the copy has the same view.
    fn duplicate(&self) -> (copy: Self)
        ensures
            copy@ == self@,
    ;
}

/// Some row of `rows` holds `key`.
pub open spec fn has_key<R: Record>(rows: Seq<R::V>, key: Seq<char>) -> bool {
    exists|i: int| 0 <= i < rows.len() && #[trigger] R::key_of(rows[i]) == key
}

/// An index at which `rows` holds `key`; meaningful where `has_key` holds,
/// and the only such index where the keys are distinct.
pub open spec fn position<R: Record>(rows: Seq<R::V>, key: Seq<char>) -> int {
    choose|i: int| 0 <= i < rows.len() && #[trigger] R::key_of(rows[i]) == key
}

/// No two rows of `rows` hold the same key.
pub open spec fn distinct_keys<R: Record>(rows: Seq<R::V>) -> bool {
    forall|i: int, j: int|
        0 <= i < j < rows.len() ==> #[trigger] R::key_of(rows[i]) != #[trigger] R::key_of(rows[j])
}

/// Exactly one row of `rows` holds `key`.
pub open spec fn holds_once<R: Record>(rows: Seq<R::V>, key: Seq<char>) -> bool {
    &&& has_key::<R>(rows, key)
    &&& forall|i: int, j: int|
        0 <= i < rows.len() && 0 <= j < rows.len() && #[trigger] R::key_of(rows[i]) == key
            && #[trigger] R::key_of(rows[j]) == key ==> i == j
}

/// What [`Table::update`] answers on a table with view `rows`.
pub open spec fn update_outcome<R: Record>(
    rows: Seq<R::V>,
    key: Seq<char>,
    row: R::V,
) -> Result<(), Error> {
    if !has_key::<R>(rows, key) {
        Err(Error::NotFound)
    } else if R::key_of(row) != key && has_key::<R>(rows, R::key_of(row)) {
        Err(Error::DuplicateKey)
    } else {
        Ok(())
    }
}

/// `out` holds, in order, the views of those rows of `rows` for which `pred`
/// answered `true`; for each row left out it answered `false`.
pub open spec fn is_selection<R: Record, F: Fn(&R) -> bool>(
    rows: Seq<R>,
    pred: F,
    out: Seq<R::V>,
) -> bool
    decreases rows.len(),
{
    if rows.len() == 0 {
        out.len() == 0
    } else {
        ||| (call_ensures(pred, (&rows.last(),), true) && out.len() > 0 && out.last() == rows.last()@
            && is_selection::<R, F>(rows.drop_last(), pred, out.drop_last()))
        ||| (call_ensures(pred, (&rows.last(),), false) && is_selection::<R, F>(
            rows.drop_last(),
            pred,
            out,
        ))
    }
}

/// A collection of rows in which no two rows share a primary key. The view
/// is the sequence of the rows' views, in the order in which they were
/// inserted.
pub struct Table<R: Record> {
    rows: Vec<R>,
}

impl<R: Record> View for Table<R> {
    type V = Seq<R::V>;

    closed spec fn view(&self) -> Seq<R::V> {
        self.rows@.map_values(|r: R| r@)
    }
}

impl<R: Record> Table<R> {
    /// No two rows hold the same key. This holds of every table at all
    /// times; `use_type_invariant` hands it to a proof.
    #[verifier::type_invariant]
    pub open spec fn keys_are_distinct(&self) -> bool {
        distinct_keys::<R>(self@)
    }

    /// An empty table.
    pub fn new() -> (t: Self)
        ensures
            t@ == Seq::<R::V>::empty(),
    {
        Table { rows: Vec::new() }
    }

    /// The table that holds `rows` in their order, if no two of them share
    /// a key.
    pub fn from_rows(rows: Vec<R>) -> (r: Result<Self, Error>)
        ensures
            r is Ok <==> distinct_keys::<R>(rows@.map_values(|r: R| r@)),
            r matches Ok(t) ==> t@ == rows@.map_values(|r: R| r@),
            r matches Err(e) ==> e == Error::DuplicateKey,
    {
        let ghost views = rows@.map_values(|r: R| r@);
        let mut t = Table::new();
        for row in it: rows
            invariant
                views == it.seq().map_values(|r: R| r@),
                t@ == views.take(it.index() as int),
        {
            let ghost k = it.index() as int;
            if t.insert(row).is_err() {
                proof {
                    // An earlier row holds the key of row `k`.
                    let j = position::<R>(views.take(k), R::key_of(views[k]));
                    assert(R::key_of(views[j]) == R::key_of(views[k]));
                }
                return Err(Error::DuplicateKey);
            }
        }
        proof {
            use_type_invariant(&t);
            assert(views.take(views.len() as int) =~= views);
        }
        Ok(t)
    }

    /// The number of rows.
    pub fn len(&self) -> (n: usize)
        ensures
            n == self@.len(),
    {
        self.rows.len()
    }

    /// Whether the table holds no row.
    pub fn is_empty(&self) -> (b: bool)
        ensures
            b == (self@.len() == 0),
    {
        self.rows.len() == 0
    }

    /// Where the row with `key` stands, if there is one.
    fn find(&self, key: &String) -> (at: Option<usize>)
        ensures
            distinct_keys::<R>(self@),
            at is Some <==> has_key::<R>(self@, key@),
            at matches Some(i) ==> i < self@.len() && i == position::<R>(self@, key@)
                && R::key_of(self@[i as int]) == key@,
    {
        proof {
            use_type_invariant(self);
        }
        let mut i: usize = 0;
        while i < self.rows.len()
            invariant
                i <= self.rows.len(),
                distinct_keys::<R>(self@),
                forall|j: int| 0 <= j < i ==> #[trigger] R::key_of(self@[j]) != key@,
            decreases self.rows.len() - i,
        {
            if *self.rows[i].key() == *key {
                proof {
                    lemma_position_unique::<R>(self@, i as int);
                }
                return Some(i);
            }
            i += 1;
        }
        None
    }

    /// Adds `row` at the end, unless a row with its key is already there.
    pub fn insert(&mut self, row: R) -> (r: Result<(), Error>)
        ensures
            has_key::<R>(old(self)@, R::key_of(row@)) ==> r == Err::<(), Error>(Error::DuplicateKey)
                && final(self)@ == old(self)@,
            !has_key::<R>(old(self)@, R::key_of(row@)) ==> r == Ok::<(), Error>(())
                && final(self)@ == old(self)@.push(row@),
    {
        match self.find(row.key()) {
            Some(_) => Err(Error::DuplicateKey),
            None => {
                let mut rows: Vec<R> = Vec::new();
                std::mem::swap(&mut rows, &mut self.rows);
                rows.push(row);
                proof {
                    assert(rows@.map_values(|r: R| r@) =~= old(self)@.push(row@));
                    lemma_push_keeps_keys::<R>(old(self)@, row@);
                }
                self.rows = rows;
                Ok(())
            },
        }
    }

    /// Whether a row with `key` is there.
    pub fn contains_key(&self, key: &String) -> (b: bool)
        ensures
            b == has_key::<R>(self@, key@),
    {
        self.find(key).is_some()
    }

    /// The row with `key`, if there is one. Nothing changes.
    pub fn get(&self, key: &String) -> (row: Option<&R>)
        ensures
            row is Some <==> has_key::<R>(self@, key@),
            row matches Some(r) ==> r@ == self@[position::<R>(self@, key@)],
    {
        match self.find(key) {
            Some(i) => Some(&self.rows[i]),
            None => None,
        }
    }

    /// Puts `row` in the place of the row with `key`. The new row may carry
    /// another key than `key`, as long as no other row holds it.
    pub fn update(&mut self, key: &String, row: R) -> (r: Result<(), Error>)
        ensures
            r == update_outcome::<R>(old(self)@, key@, row@),
            r is Ok ==> final(self)@ == old(self)@.update(position::<R>(old(self)@, key@), row@),
            r is Err ==> final(self)@ == old(self)@,
    {
        let at = match self.find(key) {
            Some(i) => i,
            None => {
                return Err(Error::NotFound);
            },
        };
        if *row.key() != *key {
            if self.find(row.key()).is_some() {
                return Err(Error::DuplicateKey);
            }
        }
        let mut rows: Vec<R> = Vec::new();
        std::mem::swap(&mut rows, &mut self.rows);
        rows[at] = row;
        proof {
            let before = old(self)@;
            let after = rows@.map_values(|r: R| r@);
            assert forall|i: int, j: int| 0 <= i < j < after.len() implies #[trigger] R::key_of(
                after[i],
            ) != #[trigger] R::key_of(after[j]) by {
                if i == at {
                    assert(R::key_of(before[j]) != R::key_of(row@));
                } else if j == at {
                    assert(R::key_of(before[i]) != R::key_of(row@));
                } else {
                    assert(R::key_of(before[i]) != R::key_of(before[j]));
                }
            }
        }
        self.rows = rows;
        Ok(())
    }

    /// Takes the row with `key` out; the rows behind it move up by one.
    pub fn delete(&mut self, key: &String) -> (r: Result<(), Error>)
        ensures
            has_key::<R>(old(self)@, key@) ==> r == Ok::<(), Error>(())
                && final(self)@ == old(self)@.remove(position::<R>(old(self)@, key@)),
            !has_key::<R>(old(self)@, key@) ==> r == Err::<(), Error>(Error::NotFound)
                && final(self)@ == old(self)@,
    {
        match self.find(key) {
            None => Err(Error::NotFound),
            Some(at) => {
                let mut rows: Vec<R> = Vec::new();
                std::mem::swap(&mut rows, &mut self.rows);
                let _ = rows.remove(at);
                proof {
                    let before = old(self)@;
                    let after = rows@.map_values(|r: R| r@);
                    assert forall|i: int, j: int| 0 <= i < j < after.len() implies #[trigger] R::key_of(
                        after[i],
                    ) != #[trigger] R::key_of(after[j]) by {
                        let bi = if i < at { i } else { i + 1 };
                        let bj = if j < at { j } else { j + 1 };
                        assert(R::key_of(before[bi]) != R::key_of(before[bj]));
                    }
                }
                self.rows = rows;
                Ok(())
            },
        }
    }

    /// A snapshot of the rows that `pred` accepts, in table order. The
    /// snapshot holds copies: what happens to the table afterwards does not
    /// reach it, and the call can be made again at any time.
    pub fn iterate<F: Fn(&R) -> bool>(&self, pred: F) -> (out: Vec<R>)
        requires
            forall|i: int|
                0 <= i < self.rows().len() ==> call_requires(pred, (&#[trigger] self.rows()[i],)),
        ensures
            is_selection::<R, F>(self.rows(), pred, out@.map_values(|r: R| r@)),
    {
        let mut out: Vec<R> = Vec::new();
        let mut i: usize = 0;
        while i < self.rows.len()
            invariant
                i <= self.rows.len(),
                forall|j: int|
                    0 <= j < self.rows().len() ==> call_requires(pred, (&#[trigger] self.rows()[j],)),
                is_selection::<R, F>(self.rows@.take(i as int), pred, out@.map_values(|r: R| r@)),
            decreases self.rows.len() - i,
        {
            let ghost seen = out@.map_values(|r: R| r@);
            assert(self.rows()[i as int] == self.rows@[i as int]);
            let row = &self.rows[i];
            let picked = pred(row);
            if picked {
                out.push(row.duplicate());
            }
            proof {
                let prefix = self.rows@.take(i as int + 1);
                let now_seen = out@.map_values(|r: R| r@);
                assert(prefix.drop_last() =~= self.rows@.take(i as int));
                if picked {
                    assert(now_seen.drop_last() =~= seen);
                }
            }
            i += 1;
        }
        assert(self.rows@.take(i as int) =~= self.rows@);
        out
    }

    /// The rows themselves, in table order: what a predicate handed to
    /// [`Table::iterate`] is called on. Their views make up the table's view.
    pub closed spec fn rows(&self) -> Seq<R> {
        self.rows@
    }

    /// The table's view is the sequence of its rows' views.
    pub proof fn lemma_view_of_rows(&self)
        ensures
            self@ == self.rows().map_values(|r: R| r@),
    {
    }
}

/// In a sequence with distinct keys, the index of a key is determined by the key.
pub proof fn lemma_position_unique<R: Record>(rows: Seq<R::V>, i: int)
    requires
        distinct_keys::<R>(rows),
        0 <= i < rows.len(),
    ensures
        has_key::<R>(rows, R::key_of(rows[i])),
        position::<R>(rows, R::key_of(rows[i])) == i,
{
    let j = position::<R>(rows, R::key_of(rows[i]));
    assert(R::key_of(rows[j]) == R::key_of(rows[i]));
}

/// In a sequence with distinct keys, a key that is held is held once, at
/// its position.
pub proof fn lemma_held_once<R: Record>(rows: Seq<R::V>, key: Seq<char>)
    requires
        distinct_keys::<R>(rows),
        has_key::<R>(rows, key),
    ensures
        holds_once::<R>(rows, key),
        0 <= position::<R>(rows, key) < rows.len(),
        R::key_of(rows[position::<R>(rows, key)]) == key,
{
    assert forall|i: int, j: int|
        0 <= i < rows.len() && 0 <= j < rows.len() && #[trigger] R::key_of(rows[i]) == key
            && #[trigger] R::key_of(rows[j]) == key implies i == j by {
        lemma_position_unique::<R>(rows, i);
        lemma_position_unique::<R>(rows, j);
    }
}

/// Replacing a row by one with the same key keeps the keys distinct, and
/// every key where it was.
pub proof fn lemma_update_keeps_keys<R: Record>(rows: Seq<R::V>, at: int, row: R::V)
    requires
        distinct_keys::<R>(rows),
        0 <= at < rows.len(),
        R::key_of(row) == R::key_of(rows[at]),
    ensures
        distinct_keys::<R>(rows.update(at, row)),
        forall|key: Seq<char>| #[trigger]
            has_key::<R>(rows.update(at, row), key) == has_key::<R>(rows, key),
        forall|key: Seq<char>|
            has_key::<R>(rows, key) ==> #[trigger] position::<R>(rows.update(at, row), key)
                == position::<R>(rows, key),
{
    let after = rows.update(at, row);
    assert(forall|i: int|
        0 <= i < rows.len() ==> #[trigger] R::key_of(after[i]) == R::key_of(rows[i]));
    assert forall|key: Seq<char>| #[trigger]
        has_key::<R>(after, key) == has_key::<R>(rows, key) by {
        if has_key::<R>(rows, key) {
            let i = position::<R>(rows, key);
            assert(R::key_of(after[i]) == key);
        }
        if has_key::<R>(after, key) {
            let i = position::<R>(after, key);
            assert(R::key_of(rows[i]) == key);
        }
    }
    assert forall|key: Seq<char>| has_key::<R>(rows, key) implies #[trigger] position::<R>(
        after,
        key,
    ) == position::<R>(rows, key) by {
        let i = position::<R>(rows, key);
        lemma_position_unique::<R>(after, i);
    }
}

/// Appending a row with a key that no row holds keeps the keys distinct;
/// the new key stands at the end, and every other key where it was.
pub proof fn lemma_push_keeps_keys<R: Record>(rows: Seq<R::V>, row: R::V)
    requires
        distinct_keys::<R>(rows),
        !has_key::<R>(rows, R::key_of(row)),
    ensures
        distinct_keys::<R>(rows.push(row)),
        has_key::<R>(rows.push(row), R::key_of(row)),
        position::<R>(rows.push(row), R::key_of(row)) == rows.len(),
        forall|key: Seq<char>|
            has_key::<R>(rows, key) ==> #[trigger] has_key::<R>(rows.push(row), key)
                && position::<R>(rows.push(row), key) == position::<R>(rows, key),
{
    let after = rows.push(row);
    assert forall|i: int, j: int| 0 <= i < j < after.len() implies #[trigger] R::key_of(after[i])
        != #[trigger] R::key_of(after[j]) by {
        if j == rows.len() {
            assert(R::key_of(rows[i]) != R::key_of(row));
        }
    }
    lemma_position_unique::<R>(after, rows.len() as int);
    assert forall|key: Seq<char>| has_key::<R>(rows, key) implies #[trigger] has_key::<R>(
        after,
        key,
    ) && position::<R>(after, key) == position::<R>(rows, key) by {
        let i = position::<R>(rows, key);
        lemma_position_unique::<R>(after, i);
    }
}

/// Where a predicate's answer is a function `keep` of the row's view, the
/// snapshot is the table's view filtered by `keep`.
pub proof fn lemma_selection_is_filter<R: Record, F: Fn(&R) -> bool>(
    rows: Seq<R>,
    pred: F,
    out: Seq<R::V>,
    keep: spec_fn(R::V) -> bool,
)
    requires
        is_selection::<R, F>(rows, pred, out),
        forall|r: R, b: bool| call_ensures(pred, (&r,), b) ==> b == keep(r@),
    ensures
        out == rows.map_values(|r: R| r@).filter(keep),
    decreases rows.len(),
{
    reveal(Seq::filter);
    let views = rows.map_values(|r: R| r@);
    if rows.len() > 0 {
        assert(views.drop_last() =~= rows.drop_last().map_values(|r: R| r@));
        if call_ensures(pred, (&rows.last(),), true) && out.len() > 0 && out.last() == rows.last()@
            && is_selection::<R, F>(rows.drop_last(), pred, out.drop_last()) {
            lemma_selection_is_filter::<R, F>(rows.drop_last(), pred, out.drop_last(), keep);
        } else {
            lemma_selection_is_filter::<R, F>(rows.drop_last(), pred, out, keep);
        }
    }
}

} // verus!
