//! Character search over string views.
use vstd::prelude::*;
use vstd::string::*;

verus! {

/// `i` is the position of the first `c` in `s`.
pub open spec fn is_first(s: Seq<char>, c: char, i: int) -> bool {
    &&& 0 <= i < s.len()
    &&& s[i] == c
    &&& forall|j: int| 0 <= j < i ==> s[j] != c
}

/// `i` is the position of the last `c` in `s`.
pub open spec fn is_last(s: Seq<char>, c: char, i: int) -> bool {
    &&& 0 <= i < s.len()
    &&& s[i] == c
    &&& forall|j: int| i < j < s.len() ==> s[j] != c
}

/// Position of the first `c` in `s`, if any.
pub open spec fn find_first(s: Seq<char>, c: char) -> Option<int> {
    if exists|i: int| is_first(s, c, i) {
        Some(choose|i: int| is_first(s, c, i))
    } else {
        None
    }
}

/// Position of the last `c` in `s`, if any.
pub open spec fn find_last(s: Seq<char>, c: char) -> Option<int> {
    if exists|i: int| is_last(s, c, i) {
        Some(choose|i: int| is_last(s, c, i))
    } else {
        None
    }
}

pub open spec fn contains_char(s: Seq<char>, c: char) -> bool {
    exists|i: int| 0 <= i < s.len() && s[i] == c
}

pub proof fn lemma_find_first_is(s: Seq<char>, c: char, i: int)
    requires
        is_first(s, c, i),
    ensures
        find_first(s, c) == Some(i),
{
    let k = choose|k: int| is_first(s, c, k);
    assert(is_first(s, c, k));
    if k < i {
        assert(s[k] != c);
    } else if i < k {
        assert(s[i] != c);
    }
}

pub proof fn lemma_find_last_is(s: Seq<char>, c: char, i: int)
    requires
        is_last(s, c, i),
    ensures
        find_last(s, c) == Some(i),
{
    let k = choose|k: int| is_last(s, c, k);
    assert(is_last(s, c, k));
    if k < i {
        assert(s[i] != c);
    } else if i < k {
        assert(s[k] != c);
    }
}

proof fn lemma_find_first_none(s: Seq<char>, c: char)
    requires
        forall|j: int| 0 <= j < s.len() ==> s[j] != c,
    ensures
        find_first(s, c) is None,
        !contains_char(s, c),
{
    if exists|i: int| is_first(s, c, i) {
        let k = choose|i: int| is_first(s, c, i);
        assert(s[k] == c);
    }
}

proof fn lemma_find_last_none(s: Seq<char>, c: char)
    requires
        forall|j: int| 0 <= j < s.len() ==> s[j] != c,
    ensures
        find_last(s, c) is None,
{
    if exists|i: int| is_last(s, c, i) {
        let k = choose|i: int| is_last(s, c, i);
        assert(s[k] == c);
    }
}

/// Finds the first `c` in `s` between `from` and `to`; the result is relative
/// to `from`.
pub fn find_char(s: &str, c: char, from: usize, to: usize) -> (r: Option<usize>)
    requires
        from <= to <= s@.len(),
    ensures
        r matches Some(i) ==> find_first(s@.subrange(from as int, to as int), c) == Some(i as int),
        r is None ==> find_first(s@.subrange(from as int, to as int), c) is None,
        r is None <==> !contains_char(s@.subrange(from as int, to as int), c),
{
    let ghost sub = s@.subrange(from as int, to as int);
    let mut i: usize = from;
    while i < to
        invariant
            from <= i <= to <= s@.len(),
            sub == s@.subrange(from as int, to as int),
            forall|j: int| 0 <= j < i - from ==> sub[j] != c,
        decreases to - i,
    {
        if s.get_char(i) == c {
            proof {
                lemma_find_first_is(sub, c, i - from);
            }
            return Some(i - from);
        }
        i = i + 1;
    }
    proof {
        lemma_find_first_none(sub, c);
    }
    None
}

/// Finds the last `c` in `s` between `from` and `to`; the result is relative
/// to `from`.
pub fn rfind_char(s: &str, c: char, from: usize, to: usize) -> (r: Option<usize>)
    requires
        from <= to <= s@.len(),
    ensures
        r matches Some(i) ==> find_last(s@.subrange(from as int, to as int), c) == Some(i as int),
        r is None ==> find_last(s@.subrange(from as int, to as int), c) is None,
{
    let ghost sub = s@.subrange(from as int, to as int);
    let mut i: usize = to;
    while i > from
        invariant
            from <= i <= to <= s@.len(),
            sub == s@.subrange(from as int, to as int),
            forall|j: int| i - from <= j < to - from ==> sub[j] != c,
        decreases i - from,
    {
        if s.get_char(i - 1) == c {
            proof {
                lemma_find_last_is(sub, c, i - 1 - from);
            }
            return Some(i - 1 - from);
        }
        i = i - 1;
    }
    proof {
        lemma_find_last_none(sub, c);
    }
    None
}

} // verus!
