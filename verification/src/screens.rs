use vstd::prelude::*;
use vstd::string::StrSliceExecFns;
use crate::scan::{
    digit_run_end, find_char, find_char_from, is_digit, lemma_first_from_some, spec_digit_run_end,
    spec_first, spec_first_from,
};

verus! {

// ---------------------------------------------------------------------------
// Discovery of connected outputs from the display query tool's text: a line
// holds a screen when a name token is followed by ` connected `, a width
// followed by `x` and a height, and a `+`-separated horizontal offset.
// ---------------------------------------------------------------------------

/// One connected monitor: its output name, horizontal resolution and
/// horizontal offset, kept as the query tool printed them.
#[derive(Debug)]
pub struct Screen {
    pub name: String,
    pub xres: String,
    pub xoffset: String,
}

/// Whether `c` may appear in an output name.
pub open spec fn is_name_char(c: char) -> bool {
    ('a' <= c && c <= 'z') || ('A' <= c && c <= 'Z') || is_digit(c) || c == '-'
}

/// The pattern `pat` occurs in `s` at position `i`.
pub open spec fn is_substr_at(s: Seq<char>, pat: Seq<char>, i: int) -> bool {
    0 <= i && i + pat.len() <= s.len() && s.subrange(i, i + pat.len()) == pat
}

/// `i` is the first position where `pat` occurs in `s`.
pub open spec fn is_first_substr_at(s: Seq<char>, pat: Seq<char>, i: int) -> bool {
    is_substr_at(s, pat, i) && (forall|j: int| 0 <= j < i ==> !is_substr_at(s, pat, j))
}

/// The first position where `pat` occurs in `s`, if any.
pub open spec fn spec_first_substr(s: Seq<char>, pat: Seq<char>) -> Option<int> {
    if exists|i: int| is_first_substr_at(s, pat, i) {
        Some(choose|i: int| is_first_substr_at(s, pat, i))
    } else {
        None
    }
}

/// A first occurrence of a pattern is unique.
pub proof fn lemma_first_substr_unique(s: Seq<char>, pat: Seq<char>, i: int, j: int)
    requires
        is_first_substr_at(s, pat, i),
        is_first_substr_at(s, pat, j),
    ensures
        i == j,
{
    if i < j {
        assert(!is_substr_at(s, pat, i));
    } else if j < i {
        assert(!is_substr_at(s, pat, j));
    }
}

/// A `Some` result of `spec_first_substr` satisfies the first-occurrence
/// predicate.
pub proof fn lemma_first_substr_some(s: Seq<char>, pat: Seq<char>, i: int)
    requires
        spec_first_substr(s, pat) == Some(i),
    ensures
        is_first_substr_at(s, pat, i),
{
    assert(exists|w: int| is_first_substr_at(s, pat, w));
    let w = choose|w: int| is_first_substr_at(s, pat, w);
    assert(is_first_substr_at(s, pat, w));
}

fn eq_at(s: &str, pat: &str, i: usize) -> (r: bool)
    requires
        i + pat@.len() <= s@.len(),
    ensures
        r == is_substr_at(s@, pat@, i as int),
{
    let n = s.unicode_len();
    let m = pat.unicode_len();
    let mut k: usize = 0;
    while k < m
        invariant
            k <= m,
            n == s@.len(),
            m == pat@.len(),
            i + m <= s@.len(),
            forall|t: int| 0 <= t < k ==> s@[i + t] == pat@[t],
        decreases m - k,
    {
        if s.get_char(i + k) != pat.get_char(k) {
            proof {
                assert(s@.subrange(i as int, i + pat@.len())[k as int] == s@[i + k]);
                assert(!is_substr_at(s@, pat@, i as int));
            }
            return false;
        }
        k = k + 1;
    }
    proof {
        assert(s@.subrange(i as int, i + pat@.len()) =~= pat@);
    }
    true
}

fn find_substr(s: &str, pat: &str) -> (r: Option<usize>)
    ensures
        match r {
            Some(i) => spec_first_substr(s@, pat@) == Some(i as int),
            None => spec_first_substr(s@, pat@) is None,
        },
{
    let n = s.unicode_len();
    let m = pat.unicode_len();
    if m > n {
        proof {
            assert(forall|w: int| !is_first_substr_at(s@, pat@, w));
        }
        return None;
    }
    if m == 0 {
        proof {
            assert(s@.subrange(0, 0) =~= pat@);
            assert(is_first_substr_at(s@, pat@, 0));
            let w = choose|w: int| is_first_substr_at(s@, pat@, w);
            lemma_first_substr_unique(s@, pat@, w, 0);
        }
        return Some(0);
    }
    let mut i: usize = 0;
    while i <= n - m
        invariant
            1 <= m <= n,
            n == s@.len(),
            m == pat@.len(),
            i <= n - m + 1,
            forall|j: int| 0 <= j < i ==> !is_substr_at(s@, pat@, j),
        decreases n - i,
    {
        if eq_at(s, pat, i) {
            proof {
                assert(is_first_substr_at(s@, pat@, i as int));
                let w = choose|w: int| is_first_substr_at(s@, pat@, w);
                lemma_first_substr_unique(s@, pat@, w, i as int);
            }
            return Some(i);
        }
        i = i + 1;
    }
    proof {
        assert(forall|w: int| !is_first_substr_at(s@, pat@, w));
    }
    None
}

/// The start of the maximal run of name characters ending at `i`.
pub open spec fn spec_name_start(s: Seq<char>, i: int) -> int
    recommends
        0 <= i <= s.len(),
    decreases i,
{
    if i <= 0 {
        0
    } else if is_name_char(s[i - 1]) {
        spec_name_start(s, i - 1)
    } else {
        i
    }
}

fn name_char(c: char) -> (r: bool)
    ensures
        r == is_name_char(c),
{
    ('a' <= c && c <= 'z') || ('A' <= c && c <= 'Z') || ('0' <= c && c <= '9') || c == '-'
}

fn name_start(s: &str, i: usize) -> (r: usize)
    requires
        i <= s@.len(),
    ensures
        r == spec_name_start(s@, i as int),
        r <= i,
{
    let mut j = i;
    while j > 0 && name_char(s.get_char(j - 1))
        invariant
            j <= i <= s@.len(),
            spec_name_start(s@, i as int) == spec_name_start(s@, j as int),
        decreases j,
    {
        j = j - 1;
    }
    j
}

/// The screen a line describes, if any: the name token before the first
/// ` connected `, the non-empty width between it and `x`, and the non-empty
/// offset after the first `+` that follows; `None` for any other line.
pub open spec fn spec_parse_line(s: Seq<char>) -> Option<(Seq<char>, Seq<char>, Seq<char>)> {
    let pat = " connected "@;
    match spec_first_substr(s, pat) {
        None => None,
        Some(i) => {
            let j = spec_name_start(s, i);
            if j == i {
                None
            } else {
                let p = i + pat.len();
                let q = spec_digit_run_end(s, p);
                if q == p || q >= s.len() || s[q] != 'x' {
                    None
                } else {
                    match spec_first_from(s, '+', q + 1) {
                        None => None,
                        Some(t) => {
                            let u = spec_digit_run_end(s, t + 1);
                            if u == t + 1 {
                                None
                            } else {
                                Some((s.subrange(j, i), s.subrange(p, q), s.subrange(t + 1, u)))
                            }
                        },
                    }
                }
            }
        },
    }
}

/// Parses one line of the query tool's output.
pub fn parse_screen_line(line: &str) -> (r: Option<Screen>)
    ensures
        match r {
            Some(sc) => spec_parse_line(line@) matches Some(f) && sc.name@ == f.0 && sc.xres@
                == f.1 && sc.xoffset@ == f.2,
            None => spec_parse_line(line@) is None,
        },
{
    let n = line.unicode_len();
    let pat = " connected ";
    let m = pat.unicode_len();
    let i = match find_substr(line, pat) {
        Some(i) => i,
        None => {
            return None;
        },
    };
    proof {
        lemma_first_substr_some(line@, pat@, i as int);
    }
    let j = name_start(line, i);
    if j == i {
        return None;
    }
    let p = i + m;
    let q = digit_run_end(line, p);
    if q == p {
        return None;
    }
    if q >= n {
        return None;
    }
    if line.get_char(q) != 'x' {
        return None;
    }
    let t = match find_char_from(line, '+', q + 1) {
        Some(t) => t,
        None => {
            return None;
        },
    };
    proof {
        lemma_first_from_some(line@, '+', q as int + 1, t as int);
    }
    let u = digit_run_end(line, t + 1);
    if u == t + 1 {
        return None;
    }
    let name = line.substring_char(j, i).to_owned();
    let xres = line.substring_char(p, q).to_owned();
    let xoffset = line.substring_char(t + 1, u).to_owned();
    Some(Screen { name, xres, xoffset })
}

// ---------------------------------------------------------------------------
// The whole output: one candidate line per newline-separated piece.
// ---------------------------------------------------------------------------

/// The lines of `s`, split at each newline.
pub open spec fn spec_lines(s: Seq<char>) -> Seq<Seq<char>>
    decreases s.len(),
    via spec_lines_decreases
{
    match spec_first(s, '\n') {
        None => seq![s],
        Some(p) => seq![s.take(p)] + spec_lines(s.subrange(p + 1, s.len() as int)),
    }
}

#[via_fn]
proof fn spec_lines_decreases(s: Seq<char>) {
    match spec_first(s, '\n') {
        None => {},
        Some(p) => {
            lemma_first_from_some(s, '\n', 0, p);
        },
    }
}

/// The screens described by a list of lines, in line order.
pub open spec fn spec_screens_of(ls: Seq<Seq<char>>) -> Seq<(Seq<char>, Seq<char>, Seq<char>)>
    decreases ls.len(),
{
    if ls.len() == 0 {
        Seq::empty()
    } else {
        (match spec_parse_line(ls[0]) {
            Some(f) => seq![f],
            None => Seq::empty(),
        }) + spec_screens_of(ls.drop_first())
    }
}

/// Extracts every connected screen from the display query tool's output,
/// one candidate per line, silently skipping lines that match no screen.
pub fn get_screens(output: &str) -> (r: Vec<Screen>)
    ensures
        r@.len() == spec_screens_of(spec_lines(output@)).len(),
        forall|k: int|
            0 <= k < r@.len() ==> ((#[trigger] r@[k]).name@, r@[k].xres@, r@[k].xoffset@)
                == spec_screens_of(spec_lines(output@))[k],
{
    let mut result: Vec<Screen> = Vec::new();
    let mut rest: &str = output;
    let ghost mut done: Seq<(Seq<char>, Seq<char>, Seq<char>)> = Seq::empty();
    loop
        invariant
            spec_screens_of(spec_lines(output@)) == done + spec_screens_of(spec_lines(rest@)),
            result@.len() == done.len(),
            forall|k: int|
                0 <= k < done.len() ==> ((#[trigger] result@[k]).name@, result@[k].xres@,
                result@[k].xoffset@) == done[k],
        decreases rest@.len(),
    {
        match find_char(rest, '\n') {
            Some(pp) => {
                proof {
                    lemma_first_from_some(rest@, '\n', 0, pp as int);
                }
                let nn = rest.unicode_len();
                let line = rest.substring_char(0, pp);
                let tail = rest.substring_char(pp + 1, nn);
                proof {
                    assert(line@ =~= rest@.take(pp as int));
                    let ls = spec_lines(rest@);
                    assert(ls == seq![line@] + spec_lines(tail@));
                    assert(ls.len() > 0);
                    assert(ls[0] == line@);
                    assert(ls.drop_first() =~= spec_lines(tail@));
                }
                match parse_screen_line(line) {
                    Some(sc) => {
                        proof {
                            done = done + seq![(sc.name@, sc.xres@, sc.xoffset@)];
                        }
                        result.push(sc);
                    },
                    None => {},
                }
                proof {
                    assert(spec_screens_of(spec_lines(output@)) == done + spec_screens_of(
                        spec_lines(tail@),
                    )) by {
                        assert(spec_screens_of(spec_lines(rest@)) == (match spec_parse_line(
                            line@,
                        ) {
                            Some(f) => seq![f],
                            None => Seq::<(Seq<char>, Seq<char>, Seq<char>)>::empty(),
                        }) + spec_screens_of(spec_lines(tail@)));
                        assert(spec_screens_of(spec_lines(output@)) =~= done + spec_screens_of(
                            spec_lines(tail@),
                        ));
                    }
                }
                rest = tail;
            },
            None => {
                proof {
                    let ls = spec_lines(rest@);
                    assert(ls == seq![rest@]);
                    assert(ls.drop_first() =~= Seq::<Seq<char>>::empty());
                    assert(spec_screens_of(ls.drop_first()) =~= Seq::<(
                        Seq<char>,
                        Seq<char>,
                        Seq<char>,
                    )>::empty());
                }
                match parse_screen_line(rest) {
                    Some(sc) => {
                        proof {
                            done = done + seq![(sc.name@, sc.xres@, sc.xoffset@)];
                        }
                        result.push(sc);
                    },
                    None => {},
                }
                proof {
                    assert(spec_screens_of(spec_lines(output@)) =~= done);
                }
                return result;
            },
        }
    }
}

} // verus!
