//! Facts about sequences that the parsers and codecs share.
use vstd::prelude::*;

verus! {

/// `i` is the position of the first `x` in `s`.
pub open spec fn is_first_index<T>(s: Seq<T>, x: T, i: int) -> bool {
    &&& 0 <= i < s.len()
    &&& s[i] == x
    &&& forall|j: int| 0 <= j < i ==> s[j] != x
}

/// The position of the first `x` in `s`, if `s` holds an `x`.
pub open spec fn first_index<T>(s: Seq<T>, x: T) -> Option<int> {
    if exists|i: int| is_first_index(s, x, i) {
        Some(choose|i: int| is_first_index(s, x, i))
    } else {
        None
    }
}

/// A first position found by a scan from the left is the first index.
pub proof fn lemma_first_index_found<T>(s: Seq<T>, x: T, i: int)
    requires
        is_first_index(s, x, i),
    ensures
        first_index(s, x) == Some(i),
{
    let k = choose|k: int| is_first_index(s, x, k);
    assert(is_first_index(s, x, k));
    if k < i {
        assert(s[k] != x);
    } else if i < k {
        assert(s[i] != x);
    }
}

/// A sequence that holds `x` somewhere has a first index of `x`, and it is
/// the position of an `x` with none before it.
pub proof fn lemma_first_index_some<T>(s: Seq<T>, x: T, i: int)
    requires
        0 <= i < s.len(),
        s[i] == x,
    ensures
        first_index(s, x) is Some,
        is_first_index(s, x, first_index(s, x)->0),
    decreases i,
{
    if forall|j: int| 0 <= j < i ==> s[j] != x {
        assert(is_first_index(s, x, i));
    } else {
        let j = choose|j: int| 0 <= j < i && s[j] == x;
        lemma_first_index_some(s, x, j);
    }
}

/// A first index of `x` is where an `x` stands with none before it.
pub proof fn lemma_first_index_is_first<T>(s: Seq<T>, x: T)
    ensures
        first_index(s, x) matches Some(k) ==> is_first_index(s, x, k),
        first_index(s, x) is None ==> forall|j: int| 0 <= j < s.len() ==> s[j] != x,
{
    if first_index(s, x) is None {
        assert forall|j: int| 0 <= j < s.len() implies s[j] != x by {
            if s[j] == x {
                lemma_first_index_some(s, x, j);
            }
        }
    }
}

/// A sequence without `x` has no first index of `x`.
pub proof fn lemma_first_index_absent<T>(s: Seq<T>, x: T)
    requires
        forall|j: int| 0 <= j < s.len() ==> s[j] != x,
    ensures
        first_index(s, x) == None::<int>,
{
    assert(!exists|i: int| is_first_index(s, x, i));
}

/// The first index of `x` in `a + [x] + b`, where `a` holds no `x`, is `a.len()`.
pub proof fn lemma_first_index_concat<T>(a: Seq<T>, x: T, b: Seq<T>)
    requires
        forall|j: int| 0 <= j < a.len() ==> a[j] != x,
    ensures
        first_index(a + seq![x] + b, x) == Some(a.len() as int),
{
    let s = a + seq![x] + b;
    assert(s[a.len() as int] == x);
    assert forall|j: int| 0 <= j < a.len() implies s[j] != x by {
        assert(s[j] == a[j]);
    }
    lemma_first_index_found(s, x, a.len() as int);
}

/// The position of the first byte `x` in `s`, scanning from the left.
pub fn find_byte(s: &[u8], x: u8) -> (r: Option<usize>)
    ensures
        r matches Some(i) ==> first_index(s@, x) == Some(i as int) && is_first_index(s@, x, i as int),
        r is None ==> first_index(s@, x) == None::<int>,
        r is None <==> (forall|j: int| 0 <= j < s@.len() ==> s@[j] != x),
{
    let mut i: usize = 0;
    while i < s.len()
        invariant
            i <= s@.len(),
            forall|j: int| 0 <= j < i ==> s@[j] != x,
        decreases s@.len() - i,
    {
        if s[i] == x {
            proof {
                lemma_first_index_found(s@, x, i as int);
            }
            return Some(i);
        }
        i = i + 1;
    }
    proof {
        lemma_first_index_absent(s@, x);
    }
    None
}

} // verus!
