//! The source table: named sources in the order their names were first
//! declared, each name at most once.
use crate::model::{Using, UsingView};
use vstd::prelude::*;

verus! {

/// A table of sources as a sequence of (name, source) entries.
pub type TableView = Seq<(Seq<char>, UsingView)>;

/// Whether `t` holds an entry named `k`.
pub open spec fn has_key(t: TableView, k: Seq<char>) -> bool {
    exists|j: int| 0 <= j < t.len() && #[trigger] t[j].0 == k
}

/// No two entries of `t` share a name.
pub open spec fn keys_unique(t: TableView) -> bool {
    forall|i: int, j: int| 0 <= i < t.len() && 0 <= j < t.len() && i != j ==> #[trigger] t[i].0 != #[trigger] t[j].0
}

/// `t` after binding `k` to `v`: an existing entry named `k` takes the new
/// source in place; otherwise the entry is appended.
pub open spec fn table_insert(t: TableView, k: Seq<char>, v: UsingView) -> TableView {
    if has_key(t, k) {
        let j = choose|j: int| 0 <= j < t.len() && #[trigger] t[j].0 == k;
        t.update(j, (k, v))
    } else {
        t.push((k, v))
    }
}

/// The source bound to `k` in `t`.
pub open spec fn table_get(t: TableView, k: Seq<char>) -> Option<UsingView> {
    if has_key(t, k) {
        let j = choose|j: int| 0 <= j < t.len() && #[trigger] t[j].0 == k;
        Some(t[j].1)
    } else {
        None
    }
}

/// Inserting keeps the names unique.
pub proof fn lemma_insert_keeps_unique(t: TableView, k: Seq<char>, v: UsingView)
    requires
        keys_unique(t),
    ensures
        keys_unique(table_insert(t, k, v)),
        has_key(table_insert(t, k, v), k),
{
    let r = table_insert(t, k, v);
    if has_key(t, k) {
        let j = choose|j: int| 0 <= j < t.len() && #[trigger] t[j].0 == k;
        assert(r[j].0 == k);
    } else {
        assert(r[t.len() as int].0 == k);
    }
}

/// The sources named in a document, each name once. Entries live in a `Vec`:
/// vstd gives a `HashMap` keyed by `String` no usable key model.
#[derive(Debug)]
pub struct UsingMap {
    entries: Vec<(String, Using)>,
}

impl View for UsingMap {
    type V = TableView;

    closed spec fn view(&self) -> TableView {
        self.entries@.map_values(|e: (String, Using)| (e.0@, e.1@))
    }
}

impl UsingMap {
    pub open spec fn wf(&self) -> bool {
        keys_unique(self@)
    }

    /// An empty table.
    pub fn new() -> (r: UsingMap)
        ensures
            r.wf(),
            r@ == Seq::<(Seq<char>, UsingView)>::empty(),
    {
        let r = UsingMap { entries: Vec::new() };
        assert(r@ =~= Seq::<(Seq<char>, UsingView)>::empty());
        r
    }

    /// The number of entries.
    pub fn len(&self) -> (r: usize)
        ensures
            r == self@.len(),
    {
        self.entries.len()
    }

    /// The index of the entry named `k`, if any.
    fn find(&self, k: &String) -> (r: Option<usize>)
        ensures
            r matches Some(j) ==> j < self@.len() && self@[j as int].0 == k@,
            r is None ==> !has_key(self@, k@),
    {
        let mut i: usize = 0;
        while i < self.entries.len()
            invariant
                i <= self@.len(),
                self@.len() == self.entries@.len(),
                forall|j: int| 0 <= j < i ==> #[trigger] self@[j].0 != k@,
            decreases self.entries@.len() - i,
        {
            if self.entries[i].0 == *k {
                return Some(i);
            }
            i = i + 1;
        }
        None
    }

    /// Binds `name` to `value`, replacing the source of an existing entry of
    /// that name (the last binding wins).
    pub fn insert(&mut self, name: String, value: Using)
        requires
            old(self).wf(),
        ensures
            final(self).wf(),
            final(self)@ == table_insert(old(self)@, name@, value@),
    {
        proof {
            lemma_insert_keeps_unique(self@, name@, value@);
        }
        match self.find(&name) {
            Some(j) => {
                proof {
                    let c = choose|c: int| 0 <= c < self@.len() && #[trigger] self@[c].0 == name@;
                    assert(self@[c].0 == self@[j as int].0);
                }
                self.entries.set(j, (name, value));
            },
            None => {
                self.entries.push((name, value));
            },
        }
        assert(self@ =~= table_insert(old(self)@, name@, value@));
    }

    /// Whether an entry is named `name`.
    pub fn contains_key(&self, name: &str) -> (r: bool)
        ensures
            r == has_key(self@, name@),
    {
        let k = String::from_str(name);
        self.find(&k).is_some()
    }

    /// The source bound to `name`.
    pub fn get(&self, name: &str) -> (r: Option<&Using>)
        requires
            self.wf(),
        ensures
            r matches Some(u) ==> table_get(self@, name@) == Some(u@),
            r is None ==> table_get(self@, name@) is None,
    {
        let k = String::from_str(name);
        match self.find(&k) {
            Some(j) => {
                proof {
                    let c = choose|c: int| 0 <= c < self@.len() && #[trigger] self@[c].0 == name@;
                    assert(self@[c].0 == self@[j as int].0);
                }
                Some(&self.entries[j].1)
            },
            None => None,
        }
    }
}

} // verus!
