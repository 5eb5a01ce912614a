use vstd::prelude::*;
use vstd::string::StrSliceExecFns;

verus! {

// ---------------------------------------------------------------------------
// Character searches over sequences of characters, used by the volume and
// screen-geometry parsers.
// ---------------------------------------------------------------------------

/// `i` is the first index at or after `from` where `c` occurs in `s`.
pub open spec fn is_first_at_or_after(s: Seq<char>, c: char, from: int, i: int) -> bool {
    from <= i < s.len() && s[i] == c && (forall|j: int| from <= j < i ==> s[j] != c)
}

/// The first index at or after `from` where `c` occurs, if any.
pub open spec fn spec_first_from(s: Seq<char>, c: char, from: int) -> Option<int> {
    if exists|i: int| is_first_at_or_after(s, c, from, i) {
        Some(choose|i: int| is_first_at_or_after(s, c, from, i))
    } else {
        None
    }
}

/// The first index where `c` occurs, if any.
pub open spec fn spec_first(s: Seq<char>, c: char) -> Option<int> {
    spec_first_from(s, c, 0)
}

/// `i` is the last index strictly before `end` where `c` occurs in `s`.
pub open spec fn is_last_before(s: Seq<char>, c: char, end: int, i: int) -> bool {
    0 <= i < end <= s.len() && s[i] == c && (forall|j: int| i < j < end ==> s[j] != c)
}

/// The last index strictly before `end` where `c` occurs, if any.
pub open spec fn spec_last_before(s: Seq<char>, c: char, end: int) -> Option<int> {
    if exists|i: int| is_last_before(s, c, end, i) {
        Some(choose|i: int| is_last_before(s, c, end, i))
    } else {
        None
    }
}

/// A first occurrence is unique.
pub proof fn lemma_first_unique(s: Seq<char>, c: char, from: int, i: int, j: int)
    requires
        is_first_at_or_after(s, c, from, i),
        is_first_at_or_after(s, c, from, j),
    ensures
        i == j,
{
    if i < j {
        assert(s[i] != c);
    } else if j < i {
        assert(s[j] != c);
    }
}

/// A last occurrence before a bound is unique.
pub proof fn lemma_last_before_unique(s: Seq<char>, c: char, end: int, i: int, j: int)
    requires
        is_last_before(s, c, end, i),
        is_last_before(s, c, end, j),
    ensures
        i == j,
{
    if i < j {
        assert(s[j] != c);
    } else if j < i {
        assert(s[i] != c);
    }
}

/// A `Some` result of `spec_first_from` satisfies the first-occurrence
/// predicate.
pub proof fn lemma_first_from_some(s: Seq<char>, c: char, from: int, i: int)
    requires
        spec_first_from(s, c, from) == Some(i),
    ensures
        is_first_at_or_after(s, c, from, i),
{
    assert(exists|w: int| is_first_at_or_after(s, c, from, w));
    let w = choose|w: int| is_first_at_or_after(s, c, from, w);
    assert(is_first_at_or_after(s, c, from, w));
}

/// A `Some` result of `spec_last_before` satisfies the last-occurrence
/// predicate.
pub proof fn lemma_last_before_some(s: Seq<char>, c: char, end: int, i: int)
    requires
        spec_last_before(s, c, end) == Some(i),
    ensures
        is_last_before(s, c, end, i),
{
    assert(exists|w: int| is_last_before(s, c, end, w));
    let w = choose|w: int| is_last_before(s, c, end, w);
    assert(is_last_before(s, c, end, w));
}

/// Finds the first occurrence of `c` in `s` at or after `from`.
pub fn find_char_from(s: &str, c: char, from: usize) -> (r: Option<usize>)
    requires
        from <= s@.len(),
    ensures
        match r {
            Some(i) => spec_first_from(s@, c, from as int) == Some(i as int),
            None => spec_first_from(s@, c, from as int) is None,
        },
{
    let n = s.unicode_len();
    let mut i = from;
    while i < n
        invariant
            from <= i <= n,
            n == s@.len(),
            forall|j: int| from <= j < i ==> s@[j] != c,
        decreases n - i,
    {
        if s.get_char(i) == c {
            proof {
                assert(is_first_at_or_after(s@, c, from as int, i as int));
                let w = choose|w: int| is_first_at_or_after(s@, c, from as int, w);
                lemma_first_unique(s@, c, from as int, w, i as int);
            }
            return Some(i);
        }
        i = i + 1;
    }
    proof {
        assert forall|w: int| !is_first_at_or_after(s@, c, from as int, w) by {}
    }
    None
}

/// Finds the first occurrence of `c` in `s`.
pub fn find_char(s: &str, c: char) -> (r: Option<usize>)
    ensures
        match r {
            Some(i) => spec_first(s@, c) == Some(i as int),
            None => spec_first(s@, c) is None,
        },
{
    find_char_from(s, c, 0)
}

/// Finds the last occurrence of `c` in `s` strictly before `end`.
pub fn rfind_char_before(s: &str, c: char, end: usize) -> (r: Option<usize>)
    requires
        end <= s@.len(),
    ensures
        match r {
            Some(i) => spec_last_before(s@, c, end as int) == Some(i as int),
            None => spec_last_before(s@, c, end as int) is None,
        },
{
    let mut i = end;
    while i > 0
        invariant
            0 <= i <= end <= s@.len(),
            forall|j: int| i <= j < end ==> s@[j] != c,
        decreases i,
    {
        i = i - 1;
        if s.get_char(i) == c {
            proof {
                assert(is_last_before(s@, c, end as int, i as int));
                let w = choose|w: int| is_last_before(s@, c, end as int, w);
                lemma_last_before_unique(s@, c, end as int, w, i as int);
            }
            return Some(i);
        }
    }
    proof {
        assert forall|w: int| !is_last_before(s@, c, end as int, w) by {}
    }
    None
}

// ---------------------------------------------------------------------------
// Maximal digit runs, used by the screen-geometry parser.
// ---------------------------------------------------------------------------

/// Whether `c` is a decimal digit.
pub open spec fn is_digit(c: char) -> bool {
    '0' <= c && c <= '9'
}

/// The end (exclusive) of the maximal run of decimal digits starting at `p`.
pub open spec fn spec_digit_run_end(s: Seq<char>, p: int) -> int
    recommends
        0 <= p <= s.len(),
    decreases s.len() - p,
{
    if p < 0 || p >= s.len() || !is_digit(s[p]) {
        p
    } else {
        spec_digit_run_end(s, p + 1)
    }
}

/// Whether `c` is a decimal digit.
pub fn digit_char(c: char) -> (r: bool)
    ensures
        r == is_digit(c),
{
    '0' <= c && c <= '9'
}

/// Finds the end of the maximal digit run starting at `p`.
pub fn digit_run_end(s: &str, p: usize) -> (r: usize)
    requires
        p <= s@.len(),
    ensures
        r == spec_digit_run_end(s@, p as int),
        p <= r <= s@.len(),
{
    let n = s.unicode_len();
    let mut q = p;
    while q < n && digit_char(s.get_char(q))
        invariant
            p <= q <= n,
            n == s@.len(),
            spec_digit_run_end(s@, p as int) == spec_digit_run_end(s@, q as int),
        decreases n - q,
    {
        q = q + 1;
    }
    q
}

} // verus!
