//! The virtual filesystem: an in-memory map from file id to path and
//! contents, with a queue of pending changes the event loop drains.

use vstd::prelude::*;
use crate::assoc::AssocMap;
use crate::types::{ChangeKind, ChangedFile, FileId};

verus! {

/// The in-memory filesystem overlay.  A path gets a fresh identifier when
/// it first appears and keeps it for the whole session.
pub struct Vfs {
    /// Identifier to path; paths are interned, so the values are distinct.
    pub paths: AssocMap<FileId, String>,
    /// Identifier to current buffer contents, for files the editor holds
    /// open.
    pub contents: AssocMap<FileId, String>,
    /// The next identifier to assign; every assigned identifier is below
    /// it.
    pub next_id: FileId,
    /// Changes not yet drained by the event loop, oldest first.
    pub pending: Vec<ChangedFile>,
}

/// Any file that `m` maps to `path` is `id` itself: paths are interned
/// once.
pub open spec fn sole_path_id(m: Map<FileId, String>, path: Seq<char>, id: FileId) -> bool {
    forall|k: FileId| m.contains_key(k) && (#[trigger] m[k])@ == path ==> k == id
}

/// Every mapping of `m1` is kept unchanged in `m2`.
pub open spec fn keeps_mappings(m1: Map<FileId, String>, m2: Map<FileId, String>) -> bool {
    forall|k: FileId|
        m1.contains_key(k) ==> m2.contains_key(k) && #[trigger] m2[k] == #[trigger] m1[k]
}

impl Vfs {
    pub open spec fn wf(self) -> bool {
        &&& self.paths.wf()
        &&& self.contents.wf()
        &&& forall|i: int|
            0 <= i < self.paths.entries@.len() ==> #[trigger] self.paths.entries@[i].0 < self.next_id
        &&& forall|i: int, j: int|
            0 <= i < j < self.paths.entries@.len() ==> self.paths.entries@[i].1@
                != self.paths.entries@[j].1@
    }

    pub fn new() -> (r: Self)
        ensures
            r.wf(),
            r.paths@ =~= Map::<FileId, String>::empty(),
            r.contents@ =~= Map::<FileId, String>::empty(),
            r.pending@ =~= Seq::<ChangedFile>::empty(),
            r.next_id == 0,
    {
        Vfs {
            paths: AssocMap::new(),
            contents: AssocMap::new(),
            next_id: 0,
            pending: Vec::new(),
        }
    }

    /// The path a file identifier stands for, if it was ever assigned.
    pub fn file_path(&self, id: FileId) -> (r: Option<&String>)
        requires
            self.wf(),
        ensures
            match r {
                Some(p) => self.paths@.contains_key(id) && *p == self.paths@[id],
                None => !self.paths@.contains_key(id),
            },
    {
        self.paths.get(&id)
    }

    /// The identifier of `path`, if one was assigned.
    pub fn find_path(&self, path: &String) -> (r: Option<FileId>)
        ensures
            match r {
                Some(id) => exists|i: int|
                    0 <= i < self.paths.entries@.len() && #[trigger] self.paths.entries@[i].0 == id
                        && self.paths.entries@[i].1@ == path@,
                None => forall|i: int|
                    0 <= i < self.paths.entries@.len() ==> (#[trigger] self.paths.entries@[i]).1@
                        != path@,
            },
    {
        let n = self.paths.len();
        let mut i: usize = 0;
        while i < n
            invariant
                n == self.paths.entries@.len(),
                i <= n,
                forall|j: int| 0 <= j < i ==> (#[trigger] self.paths.entries@[j]).1@ != path@,
            decreases n - i,
        {
            let e = self.paths.entry_at(i);
            if e.1 == *path {
                let id = e.0;
                return Some(id);
            }
            i = i + 1;
        }
        None
    }

    /// Intern `path`: return its identifier, assigning a fresh one the
    /// first time.  Existing assignments never change.
    pub fn intern(&mut self, path: &String) -> (id: FileId)
        requires
            old(self).wf(),
            old(self).next_id < 0xffff_ffff_ffff_ffff,
        ensures
            final(self).wf(),
            final(self).paths@.contains_key(id),
            final(self).paths@[id]@ == path@,
            keeps_mappings(old(self).paths@, final(self).paths@),
            sole_path_id(old(self).paths@, path@, id),
            final(self).contents@ == old(self).contents@,
            final(self).pending@ == old(self).pending@,
            final(self).next_id >= old(self).next_id,
    {
        match self.find_path(path) {
            Some(id) => {
                proof {
                    let es = self.paths.entries@;
                    let i = choose|i: int|
                        0 <= i < es.len() && #[trigger] es[i].0 == id && es[i].1@ == path@;
                    crate::assoc::lemma_map_of_index(es, i);
                    assert forall|k: FileId|
                        self.paths@.contains_key(k) && (#[trigger] self.paths@[k])@ == path@
                            implies k == id by {
                        crate::assoc::lemma_map_of_contains(es, k);
                        let i2 = choose|i2: int| 0 <= i2 < es.len() && es[i2].0@ == k;
                        crate::assoc::lemma_map_of_index(es, i2);
                        assert(es[i2].1@ == path@);
                        if i2 != i {
                            assert(es[i2].1@ != es[i].1@);
                        }
                    }
                }
                id
            },
            None => {
                let id = self.next_id;
                self.next_id = self.next_id + 1;
                self.paths.insert(id, path.clone());
                proof {
                    assert(final(self).paths@[id]@ == path@);
                    let es = old(self).paths.entries@;
                    assert forall|k: FileId|
                        old(self).paths@.contains_key(k) && (#[trigger] old(self).paths@[k])@
                            == path@ implies k == id by {
                        crate::assoc::lemma_map_of_contains(es, k);
                        let i2 = choose|i2: int| 0 <= i2 < es.len() && es[i2].0@ == k;
                        crate::assoc::lemma_map_of_index(es, i2);
                        assert(es[i2].1@ != path@);
                    }
                }
                id
            },
        }
    }

    /// Queue a change for the file at `path`, interning it first.  Returns
    /// the file identifier.
    pub fn enqueue(&mut self, path: &String, kind: ChangeKind) -> (id: FileId)
        requires
            old(self).wf(),
            old(self).next_id < 0xffff_ffff_ffff_ffff,
        ensures
            final(self).wf(),
            final(self).paths@.contains_key(id),
            final(self).paths@[id]@ == path@,
            keeps_mappings(old(self).paths@, final(self).paths@),
            sole_path_id(old(self).paths@, path@, id),
            final(self).contents@ == old(self).contents@,
            final(self).pending@ =~= old(self).pending@.push(
                ChangedFile { file_id: id, kind },
            ),
    {
        let id = self.intern(path);
        self.pending.push(ChangedFile { file_id: id, kind });
        id
    }

    /// Record the buffer contents the editor holds for `id`.
    pub fn write_contents(&mut self, id: FileId, text: String)
        requires
            old(self).wf(),
        ensures
            final(self).wf(),
            final(self).contents@ =~= old(self).contents@.insert(id, text),
            final(self).paths@ == old(self).paths@,
            final(self).pending@ == old(self).pending@,
    {
        self.contents.insert(id, text);
    }

    /// Drop the buffer contents for `id` (the editor closed the file).
    pub fn drop_contents(&mut self, id: FileId)
        requires
            old(self).wf(),
        ensures
            final(self).wf(),
            final(self).contents@ =~= old(self).contents@.remove(id),
            final(self).paths@ == old(self).paths@,
            final(self).pending@ == old(self).pending@,
    {
        self.contents.remove_key(&id);
    }

    /// Atomically take every pending change, oldest first, leaving the
    /// queue empty.
    pub fn take_changes(&mut self) -> (r: Vec<ChangedFile>)
        requires
            old(self).wf(),
        ensures
            final(self).wf(),
            r@ == old(self).pending@,
            final(self).pending@ =~= Seq::<ChangedFile>::empty(),
            final(self).paths@ == old(self).paths@,
            final(self).contents@ == old(self).contents@,
            final(self).next_id == old(self).next_id,
    {
        let mut taken: Vec<ChangedFile> = Vec::new();
        core::mem::swap(&mut taken, &mut self.pending);
        taken
    }
}

} // verus!
