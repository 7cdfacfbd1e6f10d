use vstd::prelude::*;

verus! {

/// A row kept in a [`Table`]: it carries the id under which it is stored.
pub trait Record: Sized {
    spec fn key(&self) -> u32;

    fn id(&self) -> (r: u32)
        ensures
            r == self.key(),
    ;

    fn duplicate(&self) -> (r: Self)
        ensures
            r == *self,
    ;
}

/// What a table holds: its rows in order of creation, and the id that the next
/// row will get.
pub struct TableView<T> {
    pub rows: Seq<T>,
    pub next_id: u32,
}

/// Some row of `rows` has id `id`.
pub open spec fn has_key<T: Record>(rows: Seq<T>, id: u32) -> bool {
    exists|i: int| 0 <= i < rows.len() && #[trigger] rows[i].key() == id
}

/// The position of the row with id `id` (meaningful where `has_key` holds).
pub open spec fn index_of<T: Record>(rows: Seq<T>, id: u32) -> int {
    choose|i: int| 0 <= i < rows.len() && #[trigger] rows[i].key() == id
}

/// The row with id `id`, if there is one.
pub open spec fn find<T: Record>(rows: Seq<T>, id: u32) -> Option<T> {
    if has_key(rows, id) {
        Some(rows[index_of(rows, id)])
    } else {
        None
    }
}

impl<T: Record> TableView<T> {
    /// Ids are positive, strictly ascending in order of creation, and below
    /// the id that comes next, so that no id is ever handed out twice.
    pub open spec fn wf(self) -> bool {
        &&& self.next_id >= 1
        &&& forall|i: int, j: int|
            0 <= i < j < self.rows.len() ==> #[trigger] self.rows[i].key()
                < #[trigger] self.rows[j].key()
        &&& forall|i: int| 0 <= i < self.rows.len() ==> 1 <= #[trigger] self.rows[i].key() < self.next_id
    }

    pub open spec fn get(self, id: u32) -> Option<T> {
        find(self.rows, id)
    }

    pub open spec fn contains(self, id: u32) -> bool {
        has_key(self.rows, id)
    }

    /// A row with this id can be added: it is not below the next id, and an
    /// id remains after it.
    pub open spec fn accepts(self, row: T) -> bool {
        self.next_id <= row.key() < u32::MAX
    }

    /// The table after `row` was added; ids continue after its id.
    pub open spec fn inserted(self, row: T) -> TableView<T> {
        TableView { rows: self.rows.push(row), next_id: (row.key() + 1) as u32 }
    }

    /// The table after the row with id `id` was replaced by `row`.
    pub open spec fn replaced(self, id: u32, row: T) -> TableView<T> {
        TableView { rows: self.rows.update(index_of(self.rows, id), row), next_id: self.next_id }
    }

    /// The table after the row with id `id` was taken out.
    pub open spec fn removed(self, id: u32) -> TableView<T> {
        TableView { rows: self.rows.remove(index_of(self.rows, id)), next_id: self.next_id }
    }
}

/// In a well-formed table the row with a given id sits at one position only.
pub proof fn lemma_index_of_unique<T: Record>(t: TableView<T>, i: int)
    requires
        t.wf(),
        0 <= i < t.rows.len(),
    ensures
        has_key(t.rows, t.rows[i].key()),
        index_of(t.rows, t.rows[i].key()) == i,
        find(t.rows, t.rows[i].key()) == Some(t.rows[i]),
{
    let id = t.rows[i].key();
    assert(has_key(t.rows, id));
    let j = index_of(t.rows, id);
    if j < i {
        assert(t.rows[j].key() < t.rows[i].key());
    } else if i < j {
        assert(t.rows[i].key() < t.rows[j].key());
    }
}

/// An added row is found under its id, and every other id finds what it
/// found before.
pub proof fn lemma_find_inserted<T: Record>(t: TableView<T>, row: T, id: u32)
    requires
        t.wf(),
        t.accepts(row),
    ensures
        t.inserted(row).wf(),
        t.inserted(row).get(id) == (if id == row.key() {
            Some(row)
        } else {
            t.get(id)
        }),
{
    let u = t.inserted(row);
    assert(u.rows[u.rows.len() - 1] == row);
    assert forall|i: int| 0 <= i < t.rows.len() implies #[trigger] u.rows[i] == t.rows[i] by {}
    if id == row.key() {
        lemma_index_of_unique(u, u.rows.len() - 1);
    } else if has_key(t.rows, id) {
        let k = index_of(t.rows, id);
        assert(u.rows[k] == t.rows[k]);
        lemma_index_of_unique(t, k);
        lemma_index_of_unique(u, k);
    } else {
        if has_key(u.rows, id) {
            let k = index_of(u.rows, id);
            if k < t.rows.len() {
                assert(t.rows[k].key() == id);
            }
        }
    }
}

/// Replacing a row by one with the same id keeps the table well formed; the
/// new row is found under that id, and every other id finds what it found before.
pub proof fn lemma_find_replaced<T: Record>(t: TableView<T>, id: u32, row: T, other: u32)
    requires
        t.wf(),
        t.contains(id),
        row.key() == id,
    ensures
        t.replaced(id, row).wf(),
        t.replaced(id, row).get(id) == Some(row),
        other != id ==> t.replaced(id, row).get(other) == t.get(other),
{
    let k = index_of(t.rows, id);
    let u = t.replaced(id, row);
    assert forall|a: int| 0 <= a < u.rows.len() implies #[trigger] u.rows[a].key() == t.rows[a].key() by {}
    assert forall|a: int, b: int|
        0 <= a < b < u.rows.len() implies #[trigger] u.rows[a].key() < #[trigger] u.rows[b].key() by {
        assert(t.rows[a].key() < t.rows[b].key());
    }
    assert forall|a: int| 0 <= a < u.rows.len() implies 1 <= #[trigger] u.rows[a].key() < u.next_id by {
        assert(1 <= t.rows[a].key() < t.next_id);
    }
    lemma_index_of_unique(u, k);
    if other != id {
        if has_key(t.rows, other) {
            let m = index_of(t.rows, other);
            lemma_index_of_unique(t, m);
            assert(m != k);
            assert(u.rows[m] == t.rows[m]);
            lemma_index_of_unique(u, m);
        } else if has_key(u.rows, other) {
            let m = index_of(u.rows, other);
            assert(t.rows[m].key() == other);
        }
    }
}

/// A stored list of rows, each under its own id.
#[derive(Clone)]
pub struct Table<T> {
    rows: Vec<T>,
    next_id: u32,
}

impl<T> View for Table<T> {
    type V = TableView<T>;

    closed spec fn view(&self) -> TableView<T> {
        TableView { rows: self.rows@, next_id: self.next_id }
    }
}

impl<T: Record> Table<T> {
    /// An empty table whose first row will get id 1.
    pub fn new() -> (r: Table<T>)
        ensures
            r@.rows.len() == 0,
            r@.next_id == 1,
            r@.wf(),
    {
        Table { rows: Vec::new(), next_id: 1 }
    }

    pub fn next_id(&self) -> (r: u32)
        ensures
            r == self@.next_id,
    {
        self.next_id
    }

    pub fn rows(&self) -> (r: &Vec<T>)
        ensures
            r@ == self@.rows,
    {
        &self.rows
    }

    /// The position of the row with id `id`.
    pub fn position(&self, id: u32) -> (r: Option<usize>)
        requires
            self@.wf(),
        ensures
            r.is_some() == self@.contains(id),
            r matches Some(i) ==> i == index_of(self@.rows, id) && i < self@.rows.len()
                && self@.rows[i as int].key() == id,
    {
        let mut i: usize = 0;
        while i < self.rows.len()
            invariant
                self@.wf(),
                i <= self.rows@.len(),
                forall|k: int| 0 <= k < i ==> #[trigger] self.rows@[k].key() != id,
            decreases self.rows@.len() - i,
        {
            if self.rows[i].id() == id {
                proof {
                    lemma_index_of_unique(self@, i as int);
                }
                return Some(i);
            }
            i = i + 1;
        }
        None
    }

    /// A copy of the row with id `id`, if there is one.
    pub fn get(&self, id: u32) -> (r: Option<T>)
        requires
            self@.wf(),
        ensures
            r == self@.get(id),
    {
        match self.position(id) {
            Some(i) => {
                proof {
                    lemma_index_of_unique(self@, i as int);
                }
                Some(self.rows[i].duplicate())
            },
            None => None,
        }
    }

    /// Copies of all rows, in order of creation.
    pub fn list(&self) -> (r: Vec<T>)
        ensures
            r@ == self@.rows,
    {
        let mut out: Vec<T> = Vec::new();
        let mut i: usize = 0;
        while i < self.rows.len()
            invariant
                i <= self.rows@.len(),
                out@ == self.rows@.subrange(0, i as int),
            decreases self.rows@.len() - i,
        {
            out.push(self.rows[i].duplicate());
            proof {
                assert(out@ =~= self.rows@.subrange(0, i + 1));
            }
            i = i + 1;
        }
        proof {
            assert(out@ =~= self.rows@);
        }
        out
    }

    /// Adds `row`, whose id is not below the next id.
    pub fn insert(&mut self, row: T)
        requires
            old(self)@.wf(),
            old(self)@.accepts(row),
        ensures
            final(self)@ == old(self)@.inserted(row),
            final(self)@.wf(),
    {
        proof {
            lemma_find_inserted(self@, row, 0);
        }
        let id = row.id();
        self.rows.push(row);
        self.next_id = id + 1;
    }

    /// Puts `row` in place of the row with the same id.
    pub fn replace(&mut self, i: usize, row: T)
        requires
            old(self)@.wf(),
            i < old(self)@.rows.len(),
            row.key() == old(self)@.rows[i as int].key(),
        ensures
            final(self)@ == old(self)@.replaced(row.key(), row),
            final(self)@.wf(),
    {
        proof {
            lemma_index_of_unique(self@, i as int);
        }
        self.rows.set(i, row);
        proof {
            assert forall|a: int, b: int|
                0 <= a < b < self.rows@.len() implies #[trigger] self.rows@[a].key()
                < #[trigger] self.rows@[b].key() by {
                assert(old(self)@.rows[a].key() < old(self)@.rows[b].key());
            }
            assert forall|a: int| 0 <= a < self.rows@.len() implies 1 <= #[trigger] self.rows@[a].key()
                < self.next_id by {
                assert(1 <= old(self)@.rows[a].key() < self.next_id);
            }
        }
    }

    /// Takes out the row at position `i`.
    pub fn remove(&mut self, i: usize)
        requires
            old(self)@.wf(),
            i < old(self)@.rows.len(),
        ensures
            final(self)@ == old(self)@.removed(old(self)@.rows[i as int].key()),
            final(self)@.wf(),
    {
        proof {
            lemma_index_of_unique(self@, i as int);
        }
        self.rows.remove(i);
        proof {
            let o = old(self)@.rows;
            assert forall|a: int, b: int|
                0 <= a < b < self.rows@.len() implies #[trigger] self.rows@[a].key()
                < #[trigger] self.rows@[b].key() by {
                let a0 = if a < i { a } else { a + 1 };
                let b0 = if b < i { b } else { b + 1 };
                assert(o[a0].key() < o[b0].key());
            }
            assert forall|a: int| 0 <= a < self.rows@.len() implies 1 <= #[trigger] self.rows@[a].key()
                < self.next_id by {
                let a0 = if a < i { a } else { a + 1 };
                assert(1 <= o[a0].key() < self.next_id);
            }
        }
    }
}

} // verus!
