//! The table of reading progress: for each document path, the page that was
//! last read.

use vstd::prelude::*;

verus! {

/// Reading progress by document path.
///
/// Paths are compared character by character: no case folding and no
/// normalisation. The table holds each path at most once.
#[derive(Debug, Clone)]
pub struct ReadingState {
    entries: Vec<(String, u32)>,
}

/// Whether some entry of `entries` has the path `key`.
pub open spec fn has_path(entries: Seq<(String, u32)>, key: Seq<char>) -> bool {
    exists|i: int| 0 <= i < entries.len() && (#[trigger] entries[i]).0@ == key
}

/// The position of an entry of `entries` with the path `key`.
pub open spec fn path_index(entries: Seq<(String, u32)>, key: Seq<char>) -> int {
    choose|i: int| 0 <= i < entries.len() && (#[trigger] entries[i]).0@ == key
}

/// No two entries of `entries` have the same path.
pub open spec fn distinct_paths(entries: Seq<(String, u32)>) -> bool {
    forall|i: int, j: int|
        0 <= i < entries.len() && 0 <= j < entries.len() && i != j ==> (#[trigger] entries[i]).0@
            != (#[trigger] entries[j]).0@
}

/// The map from path to page that `entries` stands for.
pub open spec fn table_of(entries: Seq<(String, u32)>) -> Map<Seq<char>, u32> {
    Map::new(
        |key: Seq<char>| has_path(entries, key),
        |key: Seq<char>| entries[path_index(entries, key)].1,
    )
}

/// In a table without repeated paths, the entry at `i` is what the map
/// holds for its path.
pub proof fn lemma_table_entry(entries: Seq<(String, u32)>, i: int)
    requires
        distinct_paths(entries),
        0 <= i < entries.len(),
    ensures
        table_of(entries).contains_key(entries[i].0@),
        table_of(entries)[entries[i].0@] == entries[i].1,
{
    let key = entries[i].0@;
    assert(has_path(entries, key));
    assert(path_index(entries, key) == i);
}

/// Putting an entry in the place of one with the same path changes the
/// page under that path and nothing else.
pub proof fn lemma_table_update(entries: Seq<(String, u32)>, i: int, entry: (String, u32))
    requires
        distinct_paths(entries),
        0 <= i < entries.len(),
        entries[i].0@ == entry.0@,
    ensures
        distinct_paths(entries.update(i, entry)),
        table_of(entries.update(i, entry)) == table_of(entries).insert(entry.0@, entry.1),
{
    let after = entries.update(i, entry);
    assert forall|j: int| 0 <= j < entries.len() implies (#[trigger] after[j]).0@
        == entries[j].0@ by {}
    assert(distinct_paths(after)) by {
        assert forall|a: int, b: int|
            0 <= a < after.len() && 0 <= b < after.len() && a != b implies (#[trigger] after[a]).0@
            != (#[trigger] after[b]).0@ by {
            assert(entries[a].0@ == after[a].0@);
            assert(entries[b].0@ == after[b].0@);
        }
    }
    assert forall|k: Seq<char>| #[trigger] has_path(after, k) == has_path(entries, k) by {
        if has_path(entries, k) {
            assert(after[path_index(entries, k)].0@ == k);
        }
        if has_path(after, k) {
            assert(entries[path_index(after, k)].0@ == k);
        }
    }
    assert forall|k: Seq<char>| has_path(after, k) implies #[trigger] table_of(after)[k]
        == table_of(entries).insert(entry.0@, entry.1)[k] by {
        let j = path_index(after, k);
        lemma_table_entry(after, j);
        lemma_table_entry(entries, j);
    }
    assert(has_path(entries, entry.0@));
    assert(table_of(after) =~= table_of(entries).insert(entry.0@, entry.1));
}

/// Adding an entry with a path that the table does not hold adds that path
/// with its page and changes nothing else.
pub proof fn lemma_table_push(entries: Seq<(String, u32)>, entry: (String, u32))
    requires
        distinct_paths(entries),
        !has_path(entries, entry.0@),
    ensures
        distinct_paths(entries.push(entry)),
        table_of(entries.push(entry)) == table_of(entries).insert(entry.0@, entry.1),
{
    let after = entries.push(entry);
    let last = entries.len() as int;
    assert(after[last].0@ == entry.0@);
    assert forall|j: int| 0 <= j < last implies #[trigger] after[j] == entries[j] by {}
    assert(distinct_paths(after)) by {
        assert forall|a: int, b: int|
            0 <= a < after.len() && 0 <= b < after.len() && a != b implies (#[trigger] after[a]).0@
            != (#[trigger] after[b]).0@ by {
            if a < last {
                assert(entries[a].0@ == after[a].0@);
            }
            if b < last {
                assert(entries[b].0@ == after[b].0@);
            }
        }
    }
    assert forall|k: Seq<char>| #[trigger]
        has_path(after, k) == (k == entry.0@ || has_path(entries, k)) by {
        if has_path(entries, k) {
            assert(after[path_index(entries, k)].0@ == k);
        }
        if has_path(after, k) {
            let j = path_index(after, k);
            if j < last {
                assert(entries[j].0@ == k);
            }
        }
    }
    assert forall|k: Seq<char>| has_path(after, k) implies #[trigger] table_of(after)[k]
        == table_of(entries).insert(entry.0@, entry.1)[k] by {
        let j = path_index(after, k);
        lemma_table_entry(after, j);
        if j < last {
            lemma_table_entry(entries, j);
        }
    }
    assert(table_of(after) =~= table_of(entries).insert(entry.0@, entry.1));
}

/// A table without repeated paths has as many paths as entries.
pub proof fn lemma_table_size(entries: Seq<(String, u32)>)
    requires
        distinct_paths(entries),
    ensures
        table_of(entries).dom().finite(),
        table_of(entries).len() == entries.len(),
    decreases entries.len(),
{
    if entries.len() == 0 {
        assert(table_of(entries).dom() =~= Set::<Seq<char>>::empty());
    } else {
        let init = entries.drop_last();
        let last = entries.last();
        assert(entries =~= init.push(last));
        assert(distinct_paths(init)) by {
            assert forall|a: int, b: int|
                0 <= a < init.len() && 0 <= b < init.len() && a != b implies (#[trigger] init[a]).0@
                != (#[trigger] init[b]).0@ by {
                assert(init[a] == entries[a]);
                assert(init[b] == entries[b]);
            }
        }
        if has_path(init, last.0@) {
            let j = path_index(init, last.0@);
            assert(entries[j].0@ == entries[entries.len() - 1].0@);
        }
        lemma_table_size(init);
        lemma_table_push(init, last);
        assert(table_of(entries).dom() =~= table_of(init).dom().insert(last.0@));
    }
}

impl View for ReadingState {
    type V = Map<Seq<char>, u32>;

    closed spec fn view(&self) -> Map<Seq<char>, u32> {
        table_of(self.entries@)
    }
}

impl ReadingState {
    /// The table's invariant: no path occurs twice.
    pub closed spec fn wf(&self) -> bool {
        distinct_paths(self.entries@)
    }

    /// A well-formed table holds finitely many paths.
    pub proof fn lemma_finite(&self)
        requires
            self.wf(),
        ensures
            self@.dom().finite(),
    {
        lemma_table_size(self.entries@);
    }

    /// The empty table.
    pub fn new() -> (r: Self)
        ensures
            r.wf(),
            r@ == Map::<Seq<char>, u32>::empty(),
    {
        let r = ReadingState { entries: Vec::new() };
        assert(r@ =~= Map::<Seq<char>, u32>::empty());
        r
    }

    /// The number of documents with recorded progress.
    pub fn len(&self) -> (n: usize)
        requires
            self.wf(),
        ensures
            n == self@.len(),
    {
        proof {
            lemma_table_size(self.entries@);
        }
        self.entries.len()
    }

    /// Where `path` stands in the table, if it does.
    fn position(&self, path: &String) -> (r: Option<usize>)
        requires
            self.wf(),
        ensures
            match r {
                Some(i) => i < self.entries@.len() && self.entries@[i as int].0@ == path@,
                None => !has_path(self.entries@, path@),
            },
    {
        let n: usize = self.entries.len();
        let mut i: usize = 0;
        while i < n
            invariant
                i <= n,
                n == self.entries@.len(),
                forall|k: int| 0 <= k < i ==> (#[trigger] self.entries@[k]).0@ != path@,
            decreases n - i,
        {
            if self.entries[i].0 == *path {
                return Some(i);
            }
            i += 1;
        }
        None
    }

    /// The page recorded for `path`, looked up verbatim.
    pub fn get(&self, path: &String) -> (r: Option<u32>)
        requires
            self.wf(),
        ensures
            r == if self@.contains_key(path@) {
                Some(self@[path@])
            } else {
                None
            },
    {
        match self.position(path) {
            Some(i) => {
                proof {
                    lemma_table_entry(self.entries@, i as int);
                }
                Some(self.entries[i].1)
            },
            None => None,
        }
    }

    /// Records `page` for `path`, in place of what was recorded for it
    /// before. All other entries stay. The page is kept as it is given.
    pub fn insert(&mut self, path: String, page: u32)
        requires
            old(self).wf(),
        ensures
            final(self).wf(),
            final(self)@ == old(self)@.insert(path@, page),
    {
        let ghost before = self.entries@;
        match self.position(&path) {
            Some(i) => {
                proof {
                    lemma_table_update(before, i as int, (path, page));
                }
                self.entries.set(i, (path, page));
            },
            None => {
                proof {
                    lemma_table_push(before, (path, page));
                }
                self.entries.push((path, page));
            },
        }
    }

    /// Hands out the entries, each path once, in no particular order.
    pub fn into_entries(self) -> (r: Vec<(String, u32)>)
        requires
            self.wf(),
        ensures
            r@.len() == self@.len(),
            distinct_paths(r@),
            table_of(r@) == self@,
    {
        proof {
            lemma_table_size(self.entries@);
        }
        self.entries
    }
}

} // verus!
