//! The storage model: the flat directory of stored files, as a sequence of
//! name/content entries with pairwise-distinct names, kept in insertion
//! order. Uploading writes or replaces whole contents; deleting removes the
//! one entry with the given name; listing enumerates the names in order.

use vstd::prelude::*;
use crate::bytes_util::bytes_eq;
use crate::bytes_util::copy_bytes;

verus! {

/// The set of stored files: one entry per name.
pub struct Storage {
    entries: Vec<(Vec<u8>, Vec<u8>)>,
}

impl Storage {
    /// Names are pairwise distinct: each name addresses one stored file.
    pub closed spec fn wf(self) -> bool {
        forall|i: int, j: int|
            0 <= i < j < self.entries@.len() ==> self.entries@[i].0@ != self.entries@[j].0@
    }

    /// The stored names, in insertion order.
    pub closed spec fn names(self) -> Seq<Seq<u8>> {
        self.entries@.map_values(|e: (Vec<u8>, Vec<u8>)| e.0@)
    }

    /// A file with this name is stored.
    pub open spec fn contains_name(self, n: Seq<u8>) -> bool {
        self.names().contains(n)
    }

    /// The content stored under a name (meaningful only when the name is
    /// stored).
    pub closed spec fn content_of(self, n: Seq<u8>) -> Seq<u8> {
        let i = choose|i: int| 0 <= i < self.entries@.len() && self.entries@[i].0@ == n;
        if self.contains_name(n) {
            self.entries@[i].1@
        } else {
            Seq::empty()
        }
    }

    /// The entry at a given index fixes membership and content of its name.
    proof fn lemma_content_at(self, i: int)
        requires
            self.wf(),
            0 <= i < self.entries@.len(),
        ensures
            self.contains_name(self.entries@[i].0@),
            self.content_of(self.entries@[i].0@) == self.entries@[i].1@,
    {
        let n = self.entries@[i].0@;
        assert(self.names()[i] == n);
        assert(self.contains_name(n));
        let w = choose|w: int| 0 <= w < self.entries@.len() && self.entries@[w].0@ == n;
        assert(0 <= w < self.entries@.len() && self.entries@[w].0@ == n);
        if w != i {
            if w < i {
                assert(self.entries@[w].0@ != self.entries@[i].0@);
            } else {
                assert(self.entries@[i].0@ != self.entries@[w].0@);
            }
        }
    }

    /// A stored name has an entry.
    proof fn lemma_contains_index(self, n: Seq<u8>) -> (i: int)
        requires
            self.contains_name(n),
        ensures
            0 <= i < self.entries@.len(),
            self.entries@[i].0@ == n,
    {
        let i = choose|i: int| 0 <= i < self.names().len() && self.names()[i] == n;
        assert(self.entries@[i].0@ == n);
        i
    }

    /// An empty storage: nothing is stored.
    pub fn new() -> (s: Storage)
        ensures
            s.wf(),
            s.names() == Seq::<Seq<u8>>::empty(),
    {
        let s = Storage { entries: Vec::new() };
        proof {
            assert(s.names() =~= Seq::<Seq<u8>>::empty());
        }
        s
    }

    /// The index of the entry with this name, if one is stored.
    fn find_index(&self, name: &Vec<u8>) -> (r: Option<usize>)
        ensures
            match r {
                Some(i) => i < self.entries@.len() && self.entries@[i as int].0@ == name@,
                None => forall|i: int|
                    0 <= i < self.entries@.len() ==> self.entries@[i].0@ != name@,
            },
    {
        let mut k: usize = 0;
        while k < self.entries.len()
            invariant
                k <= self.entries@.len(),
                forall|i: int| 0 <= i < k ==> self.entries@[i].0@ != name@,
            decreases self.entries@.len() - k,
        {
            if bytes_eq(&self.entries[k].0, name) {
                return Some(k);
            }
            k += 1;
        }
        None
    }

    /// Store `content` under `name`, fully replacing any existing content at
    /// that name.
    pub fn write(&mut self, name: &Vec<u8>, content: &Vec<u8>)
        requires
            old(self).wf(),
        ensures
            final(self).wf(),
            wrote(*old(self), *final(self), name@, content@),
    {
        let nm = copy_bytes(name);
        let ct = copy_bytes(content);
        match self.find_index(name) {
            Some(i) => {
                self.entries.set(i, (nm, ct));
                proof {
                    let pre = *old(self);
                    let post = *self;
                    assert forall|a: int, b: int|
                        0 <= a < b < post.entries@.len() implies post.entries@[a].0@
                        != post.entries@[b].0@ by {
                        assert(post.entries@[a].0@ == pre.entries@[a].0@);
                        assert(post.entries@[b].0@ == pre.entries@[b].0@);
                    }
                    assert(post.names() =~= pre.names());
                    post.lemma_content_at(i as int);
                    pre.lemma_content_at(i as int);
                    assert forall|m: Seq<u8>| m != name@ && pre.contains_name(m)
                        implies post.content_of(m) == pre.content_of(m) by {
                        let k = pre.lemma_contains_index(m);
                        assert(post.entries@[k] == pre.entries@[k]);
                        pre.lemma_content_at(k);
                        post.lemma_content_at(k);
                    }
                }
            },
            None => {
                self.entries.push((nm, ct));
                proof {
                    let pre = *old(self);
                    let post = *self;
                    let len = pre.entries@.len() as int;
                    assert forall|a: int, b: int|
                        0 <= a < b < post.entries@.len() implies post.entries@[a].0@
                        != post.entries@[b].0@ by {
                        if b < len {
                            assert(post.entries@[a] == pre.entries@[a]);
                            assert(post.entries@[b] == pre.entries@[b]);
                        } else {
                            assert(post.entries@[b].0@ == name@);
                            assert(post.entries@[a] == pre.entries@[a]);
                            assert(pre.entries@[a].0@ != name@);
                        }
                    }
                    assert(post.names() =~= pre.names().push(name@));
                    post.lemma_content_at(len);
                    if pre.contains_name(name@) {
                        let k = pre.lemma_contains_index(name@);
                    }
                    assert forall|m: Seq<u8>| m != name@ && pre.contains_name(m)
                        implies post.content_of(m) == pre.content_of(m) by {
                        let k = pre.lemma_contains_index(m);
                        assert(post.entries@[k] == pre.entries@[k]);
                        pre.lemma_content_at(k);
                        post.lemma_content_at(k);
                    }
                    assert forall|m: Seq<u8>| m != name@ && post.contains_name(m)
                        implies pre.contains_name(m) by {
                        let k = post.lemma_contains_index(m);
                        assert(k < len);
                        assert(pre.names()[k] == m);
                    }
                    assert forall|m: Seq<u8>| m != name@ && pre.contains_name(m)
                        implies post.contains_name(m) by {
                        let k = pre.lemma_contains_index(m);
                        assert(post.entries@[k] == pre.entries@[k]);
                        post.lemma_content_at(k);
                    }
                }
            },
        }
    }

    /// Remove the entry with this name. Returns whether the name was stored;
    /// when it was not, the storage is unchanged.
    pub fn remove(&mut self, name: &Vec<u8>) -> (r: bool)
        requires
            old(self).wf(),
        ensures
            final(self).wf(),
            r == old(self).contains_name(name@),
            r ==> removed(*old(self), *final(self), name@),
            !r ==> *final(self) == *old(self),
    {
        match self.find_index(name) {
            Some(i) => {
                proof {
                    old(self).lemma_content_at(i as int);
                }
                self.entries.remove(i);
                proof {
                    let pre = *old(self);
                    let post = *self;
                    let ix = i as int;
                    pre.entries@.remove_ensures(ix);
                    assert forall|a: int, b: int|
                        0 <= a < b < post.entries@.len() implies post.entries@[a].0@
                        != post.entries@[b].0@ by {
                        let a0: int = if a < ix { a } else { a + 1 };
                        let b0: int = if b < ix { b } else { b + 1 };
                        assert(post.entries@[a] == pre.entries@[a0]);
                        assert(post.entries@[b] == pre.entries@[b0]);
                    }
                    assert forall|k: int| 0 <= k < post.entries@.len()
                        implies post.entries@[k].0@ != name@ by {
                        let k0: int = if k < ix { k } else { k + 1 };
                        assert(post.entries@[k] == pre.entries@[k0]);
                        if k0 != ix {
                            if k0 < ix {
                                assert(pre.entries@[k0].0@ != pre.entries@[ix].0@);
                            } else {
                                assert(pre.entries@[ix].0@ != pre.entries@[k0].0@);
                            }
                        }
                    }
                    assert forall|m: Seq<u8>| post.contains_name(m)
                        implies m != name@ by {
                        let k = post.lemma_contains_index(m);
                    }
                    assert forall|m: Seq<u8>| m != name@ && pre.contains_name(m)
                        implies post.contains_name(m) && post.content_of(m) == pre.content_of(
                        m) by {
                        let k0 = pre.lemma_contains_index(m);
                        let k: int = if k0 < ix { k0 } else { k0 - 1 };
                        assert(k0 != ix);
                        assert(post.entries@[k] == pre.entries@[k0]);
                        pre.lemma_content_at(k0);
                        post.lemma_content_at(k);
                    }
                    assert(post.names() =~= pre.names().remove(ix));
                    assert(pre.names()[ix] == name@);
                }
                true
            },
            None => {
                proof {
                    if old(self).contains_name(name@) {
                        let k = old(self).lemma_contains_index(name@);
                    }
                }
                false
            },
        }
    }

    /// The content stored under a name, or `None` when the name is not
    /// stored.
    pub fn read(&self, name: &Vec<u8>) -> (r: Option<Vec<u8>>)
        requires
            self.wf(),
        ensures
            match r {
                Some(c) => self.contains_name(name@) && c@ == self.content_of(name@),
                None => !self.contains_name(name@),
            },
    {
        match self.find_index(name) {
            Some(i) => {
                proof {
                    self.lemma_content_at(i as int);
                }
                Some(copy_bytes(&self.entries[i].1))
            },
            None => {
                proof {
                    if self.contains_name(name@) {
                        let k = self.lemma_contains_index(name@);
                    }
                }
                None
            },
        }
    }

    /// The stored names, in order, as fresh byte vectors.
    pub fn list_names(&self) -> (r: Vec<Vec<u8>>)
        ensures
            r@.map_values(|v: Vec<u8>| v@) == self.names(),
    {
        let mut r: Vec<Vec<u8>> = Vec::new();
        let mut k: usize = 0;
        while k < self.entries.len()
            invariant
                k <= self.entries@.len(),
                r@.len() == k,
                forall|j: int| 0 <= j < k ==> r@[j]@ == self.names()[j],
            decreases self.entries@.len() - k,
        {
            let nm = copy_bytes(&self.entries[k].0);
            proof {
                assert(nm@ == self.names()[k as int]);
            }
            r.push(nm);
            k += 1;
        }
        proof {
            assert forall|j: int| 0 <= j < r@.len() implies r@.map_values(|v: Vec<u8>| v@)[j]
                == #[trigger] self.names()[j] by {
                assert(r@[j]@ == self.names()[j]);
            }
            assert(r@.map_values(|v: Vec<u8>| v@) =~= self.names());
        }
        r
    }
}

/// After the call, `n` is stored with content `c`; every other name keeps its
/// membership and content; the name order gains `n` at the end only if `n`
/// was absent.
pub open spec fn wrote(pre: Storage, post: Storage, n: Seq<u8>, c: Seq<u8>) -> bool {
    &&& post.contains_name(n)
    &&& post.content_of(n) == c
    &&& forall|m: Seq<u8>| m != n ==> post.contains_name(m) == pre.contains_name(m)
    &&& forall|m: Seq<u8>| m != n && pre.contains_name(m) ==> post.content_of(m)
        == pre.content_of(m)
    &&& (pre.contains_name(n) ==> post.names() == pre.names())
    &&& (!pre.contains_name(n) ==> post.names() == pre.names().push(n))
}

/// After the call, `n` is no longer stored; every other name keeps its
/// membership and content; the name order loses the one entry for `n`.
pub open spec fn removed(pre: Storage, post: Storage, n: Seq<u8>) -> bool {
    &&& !post.contains_name(n)
    &&& forall|m: Seq<u8>| m != n ==> post.contains_name(m) == pre.contains_name(m)
    &&& forall|m: Seq<u8>| m != n && pre.contains_name(m) ==> post.content_of(m)
        == pre.content_of(m)
    &&& exists|i: int|
        0 <= i < pre.names().len() && pre.names()[i] == n && post.names() == pre.names().remove(i)
}

/// The storage looks the same: same names in the same order, same contents.
pub open spec fn storage_same(post: Storage, pre: Storage) -> bool {
    &&& post.names() == pre.names()
    &&& forall|m: Seq<u8>| pre.contains_name(m) ==> post.content_of(m) == pre.content_of(m)
}

} // verus!
