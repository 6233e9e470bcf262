//! Character-level helpers for the line parser.
use vstd::prelude::*;

use crate::seqs::{first_index, lemma_first_index_absent, lemma_first_index_found};

verus! {

/// The characters of a string slice, in order.
pub fn to_chars(s: &str) -> (v: Vec<char>)
    ensures
        v@ == s@,
{
    let mut v: Vec<char> = Vec::new();
    for c in it: s.chars()
        invariant
            v@ == it.seq().take(it.index() as int),
    {
        v.push(c);
    }
    v
}

/// A character with the Unicode `White_Space` property, which is what
/// `char::is_whitespace` and `str::trim_end` test.
pub open spec fn is_whitespace(c: char) -> bool {
    let u = c as u32;
    ||| 0x09 <= u <= 0x0D
    ||| u == 0x20
    ||| u == 0x85
    ||| u == 0xA0
    ||| u == 0x1680
    ||| 0x2000 <= u <= 0x200A
    ||| u == 0x2028
    ||| u == 0x2029
    ||| u == 0x202F
    ||| u == 0x205F
    ||| u == 0x3000
}

/// Tests `is_whitespace`.
pub fn is_ws(c: char) -> (r: bool)
    ensures
        r == is_whitespace(c),
{
    let u = c as u32;
    (0x09 <= u && u <= 0x0D) || u == 0x20 || u == 0x85 || u == 0xA0 || u == 0x1680 || (0x2000
        <= u && u <= 0x200A) || u == 0x2028 || u == 0x2029 || u == 0x202F || u == 0x205F || u
        == 0x3000
}

/// `hay` holds `needle` as a contiguous run starting at `i`.
pub open spec fn occurs_at(hay: Seq<char>, needle: Seq<char>, i: int) -> bool {
    0 <= i && i + needle.len() <= hay.len() && hay.subrange(i, i + needle.len()) == needle
}

/// `hay` holds `needle` as a contiguous run, as `str::contains` tests.
pub open spec fn contains_run(hay: Seq<char>, needle: Seq<char>) -> bool {
    exists|i: int| occurs_at(hay, needle, i)
}

/// `i` is where `needle` first occurs in `hay`.
pub open spec fn is_first_occurrence(hay: Seq<char>, needle: Seq<char>, i: int) -> bool {
    &&& occurs_at(hay, needle, i)
    &&& forall|j: int| 0 <= j < i ==> !occurs_at(hay, needle, j)
}

/// Where `needle` first occurs in `hay`, if it does.
pub open spec fn first_occurrence(hay: Seq<char>, needle: Seq<char>) -> Option<int> {
    if exists|i: int| is_first_occurrence(hay, needle, i) {
        Some(choose|i: int| is_first_occurrence(hay, needle, i))
    } else {
        None
    }
}

/// Which characters are whitespace: the ASCII space, tab, carriage return
/// and line feed are; no printable ASCII character is.
pub proof fn lemma_whitespace_chars(c: char)
    ensures
        is_whitespace(' '),
        is_whitespace('\t'),
        is_whitespace('\r'),
        is_whitespace('\n'),
        0x21 <= (c as u32) <= 0x7E ==> !is_whitespace(c),
{
    vstd::utf8::char_u32_cast(' ', ' ' as u32);
    vstd::utf8::char_u32_cast('\t', '\t' as u32);
    vstd::utf8::char_u32_cast('\r', '\r' as u32);
    vstd::utf8::char_u32_cast('\n', '\n' as u32);
    assert((' ' as u32) == 0x20u32);
    assert(('\t' as u32) == 0x09u32);
    assert(('\r' as u32) == 0x0Du32);
    assert(('\n' as u32) == 0x0Au32);
}

/// A run put between two texts is found in the result.
pub proof fn lemma_contains_run_concat(a: Seq<char>, needle: Seq<char>, b: Seq<char>)
    ensures
        contains_run(a + needle + b, needle),
{
    let h = a + needle + b;
    assert(h.subrange(a.len() as int, a.len() + needle.len() as int) =~= needle);
    assert(occurs_at(h, needle, a.len() as int));
}

/// A run that is found is no longer than the text, and each of its
/// characters occurs in the text as it is.
pub proof fn lemma_contains_run_chars(hay: Seq<char>, needle: Seq<char>)
    ensures
        contains_run(hay, needle) ==> needle.len() <= hay.len() && forall|j: int|
            0 <= j < needle.len() ==> hay.contains(#[trigger] needle[j]),
{
    if contains_run(hay, needle) {
        let i = choose|i: int| occurs_at(hay, needle, i);
        assert forall|j: int| 0 <= j < needle.len() implies hay.contains(#[trigger] needle[j]) by {
            assert(hay.subrange(i, i + needle.len())[j] == hay[i + j]);
        }
    }
}

/// A first occurrence found by a scan is the first occurrence.
pub proof fn lemma_first_occurrence_found(hay: Seq<char>, needle: Seq<char>, i: int)
    requires
        is_first_occurrence(hay, needle, i),
    ensures
        first_occurrence(hay, needle) == Some(i),
{
    let k = choose|k: int| is_first_occurrence(hay, needle, k);
    assert(is_first_occurrence(hay, needle, k));
    if k < i {
        assert(!occurs_at(hay, needle, k));
    } else if i < k {
        assert(!occurs_at(hay, needle, i));
    }
}

/// A text without the run has no first occurrence of it.
pub proof fn lemma_first_occurrence_absent(hay: Seq<char>, needle: Seq<char>)
    requires
        !contains_run(hay, needle),
    ensures
        first_occurrence(hay, needle) == None::<int>,
{
}

/// The first position of `c` in `cs[from..to]`, counted from `from`.
pub fn find_char(cs: &Vec<char>, c: char, from: usize, to: usize) -> (r: Option<usize>)
    requires
        from <= to <= cs@.len(),
    ensures
        match r {
            Some(k) => {
                &&& from <= k < to
                &&& cs@[k as int] == c
                &&& first_index(cs@.subrange(from as int, to as int), c) == Some(k - from)
            },
            None => {
                &&& first_index(cs@.subrange(from as int, to as int), c) == None::<int>
                &&& forall|j: int| from <= j < to ==> cs@[j] != c
            },
        },
{
    let ghost sub = cs@.subrange(from as int, to as int);
    let mut i = from;
    while i < to
        invariant
            from <= i <= to <= cs@.len(),
            sub == cs@.subrange(from as int, to as int),
            forall|j: int| 0 <= j < i - from ==> sub[j] != c,
            forall|j: int| from <= j < i ==> cs@[j] != c,
        decreases to - i,
    {
        if cs[i] == c {
            proof {
                assert(sub[i - from] == c);
                lemma_first_index_found(sub, c, i - from);
            }
            return Some(i);
        }
        assert(sub[i - from] == cs@[i as int]);
        i = i + 1;
    }
    proof {
        lemma_first_index_absent(sub, c);
    }
    None
}

/// Whether `cs[from..to]` is exactly `word`.
pub fn run_is(cs: &Vec<char>, from: usize, to: usize, word: &Vec<char>) -> (r: bool)
    requires
        from <= to <= cs@.len(),
    ensures
        r == (cs@.subrange(from as int, to as int) == word@),
{
    if to - from != word.len() {
        assert(cs@.subrange(from as int, to as int).len() != word@.len());
        return false;
    }
    let mut k: usize = 0;
    while k < word.len()
        invariant
            from <= to <= cs@.len(),
            to - from == word@.len(),
            k <= word@.len(),
            forall|j: int| 0 <= j < k ==> cs@[from + j] == word@[j],
        decreases word@.len() - k,
    {
        if cs[from + k] != word[k] {
            assert(cs@.subrange(from as int, to as int)[k as int] != word@[k as int]);
            return false;
        }
        k = k + 1;
    }
    assert(cs@.subrange(from as int, to as int) =~= word@);
    true
}

/// Whether `word` occurs in `cs` at `at`.
pub fn occurs_at_exec(cs: &Vec<char>, at: usize, word: &Vec<char>) -> (r: bool)
    requires
        at <= cs@.len(),
    ensures
        r == occurs_at(cs@, word@, at as int),
{
    if cs.len() - at < word.len() {
        return false;
    }
    run_is(cs, at, at + word.len(), word)
}

/// Where `needle` first occurs in `hay`, if it does.
pub fn find_run(hay: &Vec<char>, needle: &Vec<char>) -> (r: Option<usize>)
    ensures
        match r {
            Some(i) => first_occurrence(hay@, needle@) == Some(i as int) && is_first_occurrence(
                hay@,
                needle@,
                i as int,
            ),
            None => first_occurrence(hay@, needle@) == None::<int> && !contains_run(
                hay@,
                needle@,
            ),
        },
{
    if needle.len() > hay.len() {
        assert forall|j: int| !occurs_at(hay@, needle@, j) by {}
        return None;
    }
    let last = hay.len() - needle.len();
    let mut i: usize = 0;
    loop
        invariant
            last == hay@.len() - needle@.len(),
            i <= last,
            forall|j: int| 0 <= j < i ==> !occurs_at(hay@, needle@, j),
        ensures
            forall|j: int| 0 <= j <= last ==> !occurs_at(hay@, needle@, j),
        decreases last - i,
    {
        if occurs_at_exec(hay, i, needle) {
            proof {
                let k = choose|k: int| is_first_occurrence(hay@, needle@, k);
                assert(is_first_occurrence(hay@, needle@, i as int));
                if k < i {
                    assert(!occurs_at(hay@, needle@, k));
                } else if i < k {
                    assert(!occurs_at(hay@, needle@, i as int));
                }
            }
            return Some(i);
        }
        if i == last {
            break;
        }
        i = i + 1;
    }
    assert forall|j: int| !occurs_at(hay@, needle@, j) by {
        if 0 <= j <= last {
        }
    }
    None
}

/// A `String` holding `s[from..to]`, counted in characters.
pub fn string_of(s: &str, from: usize, to: usize) -> (r: String)
    requires
        from <= to <= s@.len(),
    ensures
        r@ == s@.subrange(from as int, to as int),
{
    String::from_str(s.substring_char(from, to))
}

} // verus!
