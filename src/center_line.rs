//! Index logic over a closed center line of `n` samples.
//!
//! The geometry itself (coordinates, distances, headings) is floating point
//! and is evaluated by the caller; what is decided here is which sample is
//! paired with which, and which sample wins a search.
use vstd::arithmetic::div_mod::{lemma_mod_add_multiples_vanish, lemma_small_mod};
use vstd::prelude::*;

verus! {

/// The sample `k` places after sample `start` on a closed line of `n`
/// samples.
pub open spec fn wrapped(start: int, k: int, n: int) -> int {
    (start + k) % n
}

/// `(start + k) % n`, computed without overflow.
fn wrap_index(start: usize, k: usize, n: usize) -> (r: usize)
    requires
        start < n,
        k <= n,
    ensures
        r == wrapped(start as int, k as int, n as int),
        r < n,
{
    if k < n - start {
        proof {
            lemma_small_mod((start + k) as nat, n as nat);
        }
        start + k
    } else {
        let r: usize = start - (n - k);
        proof {
            lemma_small_mod(r as nat, n as nat);
            lemma_mod_add_multiples_vanish(r as int, n as int);
        }
        r
    }
}

/// For each sample of a closed line of `n` samples, the index of the next
/// sample, wrapping from the last one back to the first. The heading at
/// sample `i` is the direction from sample `i` to sample `r[i]`; with a
/// single sample that is the sample itself, a zero-length step.
pub fn successor_indices(n: usize) -> (r: Vec<usize>)
    ensures
        r.len() == n,
        forall|i: int| 0 <= i < n ==> r[i] == wrapped(i, 1, n as int),
{
    let mut r: Vec<usize> = Vec::with_capacity(n);
    let mut i: usize = 0;
    while i < n
        invariant
            i <= n,
            r.len() == i,
            forall|k: int| 0 <= k < i ==> r[k] == wrapped(k, 1, n as int),
        decreases n - i,
    {
        let next = wrap_index(i, 1, n);
        r.push(next);
        i = i + 1;
    }
    r
}

/// Index `i` holds the least key, and every earlier index holds a greater
/// one: the first of the least keys.
pub open spec fn is_first_least(keys: Seq<u64>, i: int) -> bool {
    &&& 0 <= i < keys.len()
    &&& forall|j: int| 0 <= j < keys.len() ==> keys[i] <= keys[j]
    &&& forall|j: int| 0 <= j < i ==> keys[i] < keys[j]
}

/// Linear scan for the first index holding the least key; `None` for no
/// keys. With the squared distances from a point to the center-line samples
/// as keys this is the nearest sample, ties going to the lowest index.
pub fn first_least_index(keys: &Vec<u64>) -> (r: Option<usize>)
    ensures
        r is None <==> keys.len() == 0,
        r matches Some(i) ==> is_first_least(keys@, i as int),
{
    if keys.len() == 0 {
        return None;
    }
    let mut best: usize = 0;
    let mut j: usize = 1;
    while j < keys.len()
        invariant
            1 <= j <= keys.len(),
            best < j,
            forall|m: int| 0 <= m < j ==> keys[best as int] <= keys[m],
            forall|m: int| 0 <= m < best ==> keys[best as int] < keys[m],
        decreases keys.len() - j,
    {
        if keys[j] < keys[best] {
            best = j;
        }
        j = j + 1;
    }
    Some(best)
}

/// No sample within the first `k` places from `start` (inclusive) is
/// marked.
pub open spec fn none_marked_before(marked: Seq<bool>, start: int, k: int) -> bool {
    forall|m: int| 0 <= m < k ==> !marked[wrapped(start, m, marked.len() as int)]
}

/// `r` is the first marked sample going forward from `start` round the
/// closed line, or `start` itself when no sample is marked.
pub open spec fn is_first_marked_from(marked: Seq<bool>, start: int, r: int) -> bool {
    let n = marked.len() as int;
    ||| exists|k: int|
        0 <= k < n && r == wrapped(start, k, n) && marked[r] && none_marked_before(marked, start, k)
    ||| none_marked_before(marked, start, n) && r == start
}

/// Forward scan round a closed line from `start` for the first marked
/// sample, falling back to `start`. With "at least the lookahead distance
/// away" as the mark and the nearest sample as `start`, this is the target
/// of pure pursuit.
pub fn first_marked_from(marked: &Vec<bool>, start: usize) -> (r: usize)
    requires
        start < marked.len(),
    ensures
        r < marked.len(),
        is_first_marked_from(marked@, start as int, r as int),
{
    let n = marked.len();
    let mut k: usize = 0;
    while k < n
        invariant
            n == marked.len(),
            start < n,
            k <= n,
            none_marked_before(marked@, start as int, k as int),
        decreases n - k,
    {
        let index = wrap_index(start, k, n);
        if marked[index] {
            return index;
        }
        k = k + 1;
    }
    start
}

} // verus!
