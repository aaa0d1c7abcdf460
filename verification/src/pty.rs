//! The table of open pseudo-terminals, keyed by the terminal's id, and the
//! replies of the terminal commands that look a terminal up in it.

use vstd::prelude::*;

verus! {

/// Keys that occur at most once.
pub open spec fn distinct_keys(ids: Seq<Seq<char>>) -> bool {
    forall|i: int, j: int| 0 <= i < ids.len() && 0 <= j < ids.len() && i != j ==> ids[i] != ids[j]
}

/// The position of `key` among `ids`, when it occurs.
pub open spec fn key_position(ids: Seq<Seq<char>>, key: Seq<char>) -> int {
    choose|i: int| 0 <= i < ids.len() && ids[i] == key
}

/// The map from each key of `ids` to the handle at the same position.
pub open spec fn table_map<H>(ids: Seq<Seq<char>>, handles: Seq<H>) -> Map<Seq<char>, H> {
    Map::new(
        |k: Seq<char>| exists|i: int| 0 <= i < ids.len() && ids[i] == k,
        |k: Seq<char>| handles[key_position(ids, k)],
    )
}

proof fn lemma_table_map_at<H>(ids: Seq<Seq<char>>, handles: Seq<H>, i: int)
    requires
        distinct_keys(ids),
        0 <= i < ids.len(),
    ensures
        table_map(ids, handles).contains_key(ids[i]),
        table_map(ids, handles)[ids[i]] == handles[i],
{
    let j = key_position(ids, ids[i]);
    assert(0 <= j < ids.len() && ids[j] == ids[i]);
}

/// The open pseudo-terminals, each under its id; `H` is the handle by which a
/// terminal is written to, resized, read and killed.
pub struct Pties<H> {
    entries: Vec<(String, H)>,
}

impl<H> Pties<H> {
    /// The keys of the table, as texts.
    pub closed spec fn keys(&self) -> Seq<Seq<char>> {
        self.entries@.map_values(|e: (String, H)| e.0@)
    }

    /// The handles of the table, in the order of its keys.
    pub closed spec fn handles(&self) -> Seq<H> {
        self.entries@.map_values(|e: (String, H)| e.1)
    }

    /// The table as a map from id to handle.
    pub closed spec fn table(&self) -> Map<Seq<char>, H> {
        table_map(self.keys(), self.handles())
    }

    #[verifier::type_invariant]
    spec fn well_formed(self) -> bool {
        distinct_keys(self.keys())
    }

    /// An empty table.
    pub fn new() -> (t: Self)
        ensures
            t.table() == Map::<Seq<char>, H>::empty(),
    {
        let t = Pties { entries: Vec::new() };
        assert(t.table() =~= Map::<Seq<char>, H>::empty());
        t
    }

    /// The position of `id` in the table, if it is there.
    fn position(&self, id: &str) -> (p: Option<usize>)
        ensures
            match p {
                Some(i) => i < self.entries@.len() && self.keys()[i as int] == id@,
                None => !self.table().contains_key(id@),
            },
    {
        proof {
            use_type_invariant(self);
        }
        let mut key = String::new();
        key.append(id);
        let n = self.entries.len();
        let mut i: usize = 0;
        while i < n
            invariant
                n == self.entries@.len(),
                key@ == id@,
                i <= n,
                forall|j: int| 0 <= j < i ==> self.keys()[j] != id@,
            decreases n - i,
        {
            if self.entries[i].0 == key {
                return Some(i);
            }
            i = i + 1;
        }
        None
    }

    /// Whether a terminal is open under `id`.
    pub fn contains(&self, id: &str) -> (b: bool)
        ensures
            b == self.table().contains_key(id@),
    {
        proof {
            use_type_invariant(self);
        }
        match self.position(id) {
            Some(i) => {
                proof {
                    lemma_table_map_at(self.keys(), self.handles(), i as int);
                }
                true
            },
            None => false,
        }
    }

    /// The handle of the terminal open under `id`.
    pub fn get(&self, id: &str) -> (h: Option<&H>)
        ensures
            match h {
                Some(h) => self.table().contains_key(id@) && *h == self.table()[id@],
                None => !self.table().contains_key(id@),
            },
    {
        proof {
            use_type_invariant(self);
        }
        match self.position(id) {
            Some(i) => {
                proof {
                    lemma_table_map_at(self.keys(), self.handles(), i as int);
                }
                Some(&self.entries[i].1)
            },
            None => None,
        }
    }

    /// Files `handle` under `id`, in place of any terminal filed there before.
    pub fn insert(&mut self, id: String, handle: H)
        ensures
            final(self).table() == old(self).table().insert(id@, handle),
    {
        proof {
            use_type_invariant(&*self);
        }
        let ghost old_keys = self.keys();
        let ghost old_handles = self.handles();
        match self.position(id.as_str()) {
            Some(i) => {
                let mut entries: Vec<(String, H)> = Vec::new();
                std::mem::swap(&mut entries, &mut self.entries);
                let ghost idv = id@;
                entries.set(i, (id, handle));
                proof {
                    assert(entries@.map_values(|e: (String, H)| e.0@) =~= old_keys);
                }
                self.entries = entries;
                proof {
                    let ks = self.keys();
                    assert(ks == old_keys);
                    assert forall|k: Seq<char>| #[trigger]
                        self.table().contains_key(k) implies self.table()[k] == old(
                        self,
                    ).table().insert(id@, handle)[k] by {
                        let j = key_position(ks, k);
                        if k == id@ {
                            assert(ks[i as int] == id@);
                            lemma_table_map_at(ks, self.handles(), i as int);
                        } else {
                            assert(0 <= j < ks.len() && ks[j] == k);
                            lemma_table_map_at(ks, self.handles(), j);
                            lemma_table_map_at(old_keys, old_handles, j);
                        }
                    }
                    assert(self.table() =~= old(self).table().insert(id@, handle));
                }
            },
            None => {
                let mut entries: Vec<(String, H)> = Vec::new();
                std::mem::swap(&mut entries, &mut self.entries);
                let ghost idv = id@;
                entries.push((id, handle));
                proof {
                    let ks = entries@.map_values(|e: (String, H)| e.0@);
                    assert(ks =~= old_keys.push(idv));
                    assert forall|a: int, b: int|
                        0 <= a < ks.len() && 0 <= b < ks.len() && a != b implies ks[a] != ks[b] by {
                        if a == old_keys.len() as int {
                            if ks[b] == idv {
                                assert(0 <= b < old_keys.len() && old_keys[b] == idv);
                            }
                        } else if b == old_keys.len() as int {
                            if ks[a] == idv {
                                assert(0 <= a < old_keys.len() && old_keys[a] == idv);
                            }
                        }
                    }
                }
                self.entries = entries;
                proof {
                    let ks = self.keys();
                    assert(ks =~= old_keys.push(idv));
                    assert(self.handles() =~= old_handles.push(handle));
                    assert forall|k: Seq<char>|
                        #[trigger] self.table().contains_key(k) <==> old(self).table().insert(
                            idv,
                            handle,
                        ).contains_key(k) by {
                        if k != idv && old(self).table().contains_key(k) {
                            let j = key_position(old_keys, k);
                            assert(ks[j] == k);
                        }
                        if self.table().contains_key(k) && k != idv {
                            let j = key_position(ks, k);
                            assert(0 <= j < old_keys.len());
                            assert(old_keys[j] == k);
                        }
                        if k == idv {
                            assert(ks[old_keys.len() as int] == idv);
                        }
                    }
                    assert forall|k: Seq<char>| #[trigger]
                        self.table().contains_key(k) implies self.table()[k] == old(
                        self,
                    ).table().insert(idv, handle)[k] by {
                        let j = key_position(ks, k);
                        lemma_table_map_at(ks, self.handles(), j);
                        if k != idv {
                            assert(j < old_keys.len());
                            assert(old_keys[j] == k);
                            lemma_table_map_at(old_keys, old_handles, j);
                        }
                    }
                    assert(self.table() =~= old(self).table().insert(idv, handle));
                }
            },
        }
    }

    /// Takes the terminal open under `id` out of the table.
    pub fn remove(&mut self, id: &str) -> (h: Option<H>)
        ensures
            final(self).table() == old(self).table().remove(id@),
            match h {
                Some(h) => old(self).table().contains_key(id@) && h == old(self).table()[id@],
                None => !old(self).table().contains_key(id@),
            },
    {
        proof {
            use_type_invariant(&*self);
        }
        let ghost old_keys = self.keys();
        let ghost old_handles = self.handles();
        match self.position(id) {
            Some(i) => {
                proof {
                    lemma_table_map_at(old_keys, old_handles, i as int);
                }
                let mut entries: Vec<(String, H)> = Vec::new();
                std::mem::swap(&mut entries, &mut self.entries);
                let (_, h) = entries.remove(i);
                proof {
                    let ks = entries@.map_values(|e: (String, H)| e.0@);
                    assert(ks =~= old_keys.remove(i as int));
                    assert forall|a: int, b: int|
                        0 <= a < ks.len() && 0 <= b < ks.len() && a != b implies ks[a] != ks[b] by {
                        let a2 = if a < i { a } else { a + 1 };
                        let b2 = if b < i { b } else { b + 1 };
                        assert(ks[a] == old_keys[a2]);
                        assert(ks[b] == old_keys[b2]);
                    }
                }
                self.entries = entries;
                proof {
                    let ks = self.keys();
                    assert(ks =~= old_keys.remove(i as int));
                    assert(self.handles() =~= old_handles.remove(i as int));
                    assert forall|k: Seq<char>|
                        #[trigger] self.table().contains_key(k) <==> old(self).table().remove(
                            id@,
                        ).contains_key(k) by {
                        if self.table().contains_key(k) {
                            let j = key_position(ks, k);
                            let j2 = if j < i { j } else { j + 1 };
                            assert(old_keys[j2] == k);
                            assert(j2 != i);
                        }
                        if old(self).table().contains_key(k) && k != id@ {
                            let j = key_position(old_keys, k);
                            assert(j != i);
                            let j1 = if j < i { j } else { j - 1 };
                            assert(ks[j1] == k);
                        }
                    }
                    assert forall|k: Seq<char>| #[trigger]
                        self.table().contains_key(k) implies self.table()[k] == old(
                        self,
                    ).table().remove(id@)[k] by {
                        let j = key_position(ks, k);
                        let j2 = if j < i { j } else { j + 1 };
                        lemma_table_map_at(ks, self.handles(), j);
                        assert(old_keys[j2] == k);
                        lemma_table_map_at(old_keys, old_handles, j2);
                    }
                    assert(self.table() =~= old(self).table().remove(id@));
                }
                Some(h)
            },
            None => {
                assert(self.table() =~= old(self).table().remove(id@));
                None
            },
        }
    }

    /// The handle of the terminal open under `id`, or the error that the
    /// terminal commands answer for an id under which none is open.
    pub fn handle_for(&self, id: &str) -> (r: Result<&H, String>)
        ensures
            match r {
                Ok(h) => self.table().contains_key(id@) && *h == self.table()[id@],
                Err(e) => !self.table().contains_key(id@) && e@ == "no such PTY id"@,
            },
    {
        match self.get(id) {
            Some(h) => Ok(h),
            None => Err(no_such_pty()),
        }
    }
}

/// The error of a terminal command given an id under which no terminal is open.
pub fn no_such_pty() -> (e: String)
    ensures
        e@ == "no such PTY id"@,
{
    proof {
        reveal_strlit("no such PTY id");
    }
    let mut e = String::new();
    e.append("no such PTY id");
    e
}

/// The operations on a terminal that can fail.
#[derive(Clone, Copy, PartialEq, Eq, Structural, Debug)]
pub enum PtyOp {
    Spawn,
    Write,
    Resize,
    Read,
}

/// The words that the error of a failed `op` starts with.
pub open spec fn failure_prefix(op: PtyOp) -> Seq<char> {
    match op {
        PtyOp::Spawn => "failed to spawn pty: "@,
        PtyOp::Write => "failed to write: "@,
        PtyOp::Resize => "failed to resize: "@,
        PtyOp::Read => "failed to read: "@,
    }
}

/// The error reported when `op` fails with `detail`.
pub fn pty_failure(op: PtyOp, detail: &str) -> (e: String)
    ensures
        e@ == failure_prefix(op) + detail@,
{
    let mut e = String::new();
    match op {
        PtyOp::Spawn => {
            proof {
                reveal_strlit("failed to spawn pty: ");
            }
            e.append("failed to spawn pty: ");
        },
        PtyOp::Write => {
            proof {
                reveal_strlit("failed to write: ");
            }
            e.append("failed to write: ");
        },
        PtyOp::Resize => {
            proof {
                reveal_strlit("failed to resize: ");
            }
            e.append("failed to resize: ");
        },
        PtyOp::Read => {
            proof {
                reveal_strlit("failed to read: ");
            }
            e.append("failed to read: ");
        },
    }
    e.append(detail);
    e
}

/// The reply to a read of a terminal's output, given the first chunk its
/// output stream yielded (already decoded), the error it yielded, or nothing
/// when the stream had ended: the chunk, an error, or empty text.
pub fn read_output_reply(chunk: Option<Result<String, String>>) -> (r: Result<String, String>)
    ensures
        match chunk {
            None => r matches Ok(t) && t@ == Seq::<char>::empty(),
            Some(Ok(text)) => r matches Ok(t) && t@ == text@,
            Some(Err(detail)) => r matches Err(e) && e@ == failure_prefix(PtyOp::Read) + detail@,
        },
{
    match chunk {
        None => Ok(String::new()),
        Some(Ok(text)) => Ok(text),
        Some(Err(detail)) => Err(pty_failure(PtyOp::Read, detail.as_str())),
    }
}


/// A terminal filed under `id` is the one later commands find under `id`, and
/// filing it leaves what is found under every other id as it was.
pub proof fn lemma_lookup_after_start<H>(table: Map<Seq<char>, H>, id: Seq<char>, handle: H, other: Seq<char>)
    ensures
        table.insert(id, handle).contains_key(id),
        table.insert(id, handle)[id] == handle,
        other != id ==> (table.insert(id, handle).contains_key(other) == table.contains_key(other)),
        other != id && table.contains_key(other) ==> table.insert(id, handle)[other] == table[other],
{
}

/// Closing a terminal that was just started under a new id leaves the table as
/// it was before the start; closing an id under which nothing is open changes
/// nothing.
pub proof fn lemma_close_undoes_start<H>(table: Map<Seq<char>, H>, id: Seq<char>, handle: H)
    requires
        !table.contains_key(id),
    ensures
        table.insert(id, handle).remove(id) == table,
        table.remove(id) == table,
{
    assert(table.insert(id, handle).remove(id) =~= table);
    assert(table.remove(id) =~= table);
}

} // verus!
