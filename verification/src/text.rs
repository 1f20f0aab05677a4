//! Small helpers on strings and characters.

use vstd::prelude::*;

verus! {

/// The view of an optional string.
pub open spec fn opt_text(o: Option<String>) -> Option<Seq<char>> {
    match o {
        Some(s) => Some(s@),
        None => None,
    }
}

/// The code of `c` with the ASCII capitals mapped onto their small letters.
pub open spec fn fold_case(c: char) -> int {
    if 'A' <= c && c <= 'Z' {
        c as int + 32
    } else {
        c as int
    }
}

/// Two texts that differ at most in the case of their ASCII letters.
pub open spec fn same_ignoring_case(a: Seq<char>, b: Seq<char>) -> bool {
    &&& a.len() == b.len()
    &&& forall|i: int| 0 <= i < a.len() ==> fold_case(#[trigger] a[i]) == fold_case(b[i])
}

/// The characters of `s`, in order.
pub fn string_chars(s: &str) -> (v: Vec<char>)
    ensures
        v@ == s@,
{
    let mut v: Vec<char> = Vec::new();
    for c in it: s.chars()
        invariant
            v@ == it.seq().take(it.index() as int),
    {
        v.push(c);
    }
    v
}

/// Executable form of [`fold_case`].
pub fn fold_char(c: char) -> (r: u32)
    ensures
        r == fold_case(c),
{
    let u: u32 = c as u32;
    if 65 <= u && u <= 90 {
        u + 32
    } else {
        u
    }
}

/// Position of the first `c` among the first `end` characters of `v`.
pub fn find_char(v: &Vec<char>, end: usize, c: char) -> (r: Option<usize>)
    requires
        end <= v.len(),
    ensures
        match r {
            Some(i) => i < end && v@.take(end as int).index_of_first(c) == Some(i as int),
            None => v@.take(end as int).index_of_first(c) is None,
        },
{
    let ghost s = v@.take(end as int);
    let mut i: usize = 0;
    while i < end
        invariant
            i <= end <= v.len(),
            s == v@.take(end as int),
            forall|j: int| 0 <= j < i ==> s[j] != c,
        decreases end - i,
    {
        if v[i] == c {
            proof {
                assert(s[i as int] == c);
                s.index_of_first_ensures(c);
            }
            return Some(i);
        }
        i += 1;
    }
    proof {
        s.index_of_first_ensures(c);
    }
    None
}

/// Whether `v[lo..hi]` and `w` differ at most in the case of ASCII letters.
pub fn range_same_ignoring_case(v: &Vec<char>, lo: usize, hi: usize, w: &Vec<char>) -> (b: bool)
    requires
        lo <= hi <= v.len(),
    ensures
        b == same_ignoring_case(v@.subrange(lo as int, hi as int), w@),
{
    if hi - lo != w.len() {
        return false;
    }
    let ghost a = v@.subrange(lo as int, hi as int);
    let mut i: usize = 0;
    while i < w.len()
        invariant
            lo <= hi <= v.len(),
            hi - lo == w.len(),
            i <= w.len(),
            a == v@.subrange(lo as int, hi as int),
            forall|j: int| 0 <= j < i ==> fold_case(#[trigger] a[j]) == fold_case(w@[j]),
        decreases w.len() - i,
    {
        if fold_char(v[lo + i]) != fold_char(w[i]) {
            assert(a[i as int] == v@[lo + i]);
            return false;
        }
        assert(a[i as int] == v@[lo + i]);
        i += 1;
    }
    true
}

} // verus!
