//! Helpers over byte vectors: equality, prefix test, substring search,
//! slicing, copying and concatenation, each with an exact contract.

use vstd::prelude::*;

verus! {

/// `n` occurs in `h` starting at index `i`.
pub open spec fn match_at(h: Seq<u8>, n: Seq<u8>, i: int) -> bool {
    0 <= i && i + n.len() <= h.len() && h.subrange(i, i + n.len() as int) == n
}

/// The least index `i >= from` where `n` occurs in `h`, if any.
/// An empty needle is never found.
pub open spec fn find_spec(h: Seq<u8>, n: Seq<u8>, from: int) -> Option<int>
    decreases h.len() - from,
{
    if from < 0 || n.len() == 0 || from + n.len() > h.len() {
        None
    } else if match_at(h, n, from) {
        Some(from)
    } else {
        find_spec(h, n, from + 1)
    }
}

/// What a `find_spec` result means: a hit is the least match at or after
/// `from`; a miss means no match at or after `from`.
pub proof fn lemma_find_spec_props(h: Seq<u8>, n: Seq<u8>, from: int)
    requires
        0 <= from,
        n.len() > 0,
    ensures
        match find_spec(h, n, from) {
            Some(i) => from <= i && match_at(h, n, i)
                && forall|j: int| from <= j < i ==> !match_at(h, n, j),
            None => forall|j: int| from <= j ==> !match_at(h, n, j),
        },
    decreases h.len() - from,
{
    if from + n.len() > h.len() {
        assert forall|j: int| from <= j implies !match_at(h, n, j) by {
            assert(j + n.len() > h.len());
        }
    } else if match_at(h, n, from) {
    } else {
        lemma_find_spec_props(h, n, from + 1);
    }
}

/// Compare two byte vectors for equality of their contents.
pub fn bytes_eq(a: &Vec<u8>, b: &Vec<u8>) -> (r: bool)
    ensures
        r == (a@ == b@),
{
    if a.len() != b.len() {
        assert(a@ != b@);
        return false;
    }
    let mut i: usize = 0;
    while i < a.len()
        invariant
            i <= a.len(),
            a@.len() == b@.len(),
            forall|j: int| 0 <= j < i ==> a@[j] == b@[j],
        decreases a.len() - i,
    {
        if a[i] != b[i] {
            assert(a@ != b@);
            return false;
        }
        i += 1;
    }
    assert(a@ =~= b@);
    true
}

/// Does `n` occur in `h` at index `i`? Exact mirror of `match_at`.
pub fn is_match(h: &Vec<u8>, n: &Vec<u8>, i: usize) -> (r: bool)
    requires
        i + n@.len() <= h@.len(),
    ensures
        r == match_at(h@, n@, i as int),
{
    let ghost sub = h@.subrange(i as int, i + n@.len());
    let hlen: usize = h.len();
    let mut k: usize = 0;
    while k < n.len()
        invariant
            i + n@.len() <= h@.len(),
            h@.len() == hlen,
            k <= n@.len(),
            sub == h@.subrange(i as int, i + n@.len()),
            forall|j: int| 0 <= j < k ==> h@[i + j] == n@[j],
        decreases n.len() - k,
    {
        if h[i + k] != n[k] {
            proof {
                assert(sub[k as int] == h@[i + k]);
                assert(sub != n@);
            }
            return false;
        }
        k += 1;
    }
    proof {
        assert(sub =~= n@);
    }
    true
}

/// First occurrence of `n` in `h` at or after `from`. Exact mirror of
/// `find_spec`.
pub fn find(h: &Vec<u8>, n: &Vec<u8>, from: usize) -> (r: Option<usize>)
    ensures
        match r {
            Some(i) => find_spec(h@, n@, from as int) == Some(i as int),
            None => find_spec(h@, n@, from as int) is None,
        },
{
    if n.len() == 0 {
        return None;
    }
    if from > h.len() || h.len() - from < n.len() {
        return None;
    }
    let mut i: usize = from;
    while i <= h.len() - n.len()
        invariant
            from <= i <= h@.len(),
            0 < n@.len() <= h@.len(),
            forall|j: int| from <= j < i ==> !match_at(h@, n@, j),
        decreases h@.len() - i,
    {
        if is_match(h, n, i) {
            proof {
                lemma_find_spec_props(h@, n@, from as int);
                match find_spec(h@, n@, from as int) {
                    Some(w) => {
                        if w < i {
                            assert(!match_at(h@, n@, w));
                        }
                        if i < w {
                            assert(!match_at(h@, n@, i as int));
                        }
                    },
                    None => {
                        assert(!match_at(h@, n@, i as int));
                    },
                }
            }
            return Some(i);
        }
        i += 1;
    }
    proof {
        lemma_find_spec_props(h@, n@, from as int);
        if let Some(w) = find_spec(h@, n@, from as int) {
            assert(match_at(h@, n@, w));
            assert(w + n@.len() > h@.len());
        }
    }
    None
}

/// The bytes of `h` from index `a` (inclusive) to `b` (exclusive).
pub fn subvec(h: &Vec<u8>, a: usize, b: usize) -> (r: Vec<u8>)
    requires
        a <= b <= h@.len(),
    ensures
        r@ == h@.subrange(a as int, b as int),
{
    let mut r: Vec<u8> = Vec::new();
    let mut k: usize = a;
    while k < b
        invariant
            a <= k <= b <= h@.len(),
            r@ == h@.subrange(a as int, k as int),
        decreases b - k,
    {
        r.push(h[k]);
        proof {
            assert(r@ =~= h@.subrange(a as int, k + 1));
        }
        k += 1;
    }
    r
}

/// A fresh vector with the same bytes as `v`.
pub fn copy_bytes(v: &Vec<u8>) -> (r: Vec<u8>)
    ensures
        r@ == v@,
{
    let r = subvec(v, 0, v.len());
    proof {
        assert(v@.subrange(0, v@.len() as int) =~= v@);
    }
    r
}

/// The bytes of `a` followed by the bytes of `b`.
pub fn concat_bytes(a: &Vec<u8>, b: &Vec<u8>) -> (r: Vec<u8>)
    ensures
        r@ == a@ + b@,
{
    let mut r = copy_bytes(a);
    let mut k: usize = 0;
    while k < b.len()
        invariant
            k <= b@.len(),
            r@ == a@ + b@.subrange(0, k as int),
        decreases b.len() - k,
    {
        r.push(b[k]);
        proof {
            assert(r@ =~= a@ + b@.subrange(0, k + 1));
        }
        k += 1;
    }
    proof {
        assert(b@.subrange(0, b@.len() as int) =~= b@);
    }
    r
}

/// Does `h` begin with `n`?
pub fn starts_with(h: &Vec<u8>, n: &Vec<u8>) -> (r: bool)
    ensures
        r == (h@.len() >= n@.len() && h@.subrange(0, n@.len() as int) == n@),
{
    if n.len() > h.len() {
        false
    } else {
        is_match(h, n, 0)
    }
}

} // verus!
