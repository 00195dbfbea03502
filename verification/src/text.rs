//! Character and substring utilities shared by the extractor, the trigger
//! guard and the leaderboard formatter.
use vstd::prelude::*;
use vstd::string::StrSliceExecFns;
use vstd::string::StringExecFns;

verus! {

/// An ASCII decimal digit.
pub open spec fn is_digit(c: char) -> bool {
    '0' <= c && c <= '9'
}

/// The lower-case counterpart of an ASCII upper-case letter.
pub open spec fn upper_to_lower(c: char) -> char {
    if c == 'A' { 'a' } else if c == 'B' { 'b' } else if c == 'C' { 'c' }
    else if c == 'D' { 'd' } else if c == 'E' { 'e' } else if c == 'F' { 'f' }
    else if c == 'G' { 'g' } else if c == 'H' { 'h' } else if c == 'I' { 'i' }
    else if c == 'J' { 'j' } else if c == 'K' { 'k' } else if c == 'L' { 'l' }
    else if c == 'M' { 'm' } else if c == 'N' { 'n' } else if c == 'O' { 'o' }
    else if c == 'P' { 'p' } else if c == 'Q' { 'q' } else if c == 'R' { 'r' }
    else if c == 'S' { 's' } else if c == 'T' { 't' } else if c == 'U' { 'u' }
    else if c == 'V' { 'v' } else if c == 'W' { 'w' } else if c == 'X' { 'x' }
    else if c == 'Y' { 'y' } else { 'z' }
}

/// ASCII lower-casing of a single character; every other character is kept.
pub open spec fn lower_char(c: char) -> char {
    if 'A' <= c && c <= 'Z' {
        upper_to_lower(c)
    } else {
        c
    }
}

/// ASCII lower-casing of a whole character sequence, position by position.
pub open spec fn lower_seq(s: Seq<char>) -> Seq<char> {
    s.map_values(|c: char| lower_char(c))
}

/// Lower-casing never turns a character into a digit or a digit into
/// anything else.
pub proof fn lemma_lower_char_digit(c: char)
    ensures
        is_digit(lower_char(c)) == is_digit(c),
        is_digit(c) ==> lower_char(c) == c,
{
}

/// Executable counterpart of `lower_char`.
pub fn lower_char_exec(c: char) -> (r: char)
    ensures
        r == lower_char(c),
{
    if 'A' <= c && c <= 'Z' {
        if c == 'A' { 'a' } else if c == 'B' { 'b' } else if c == 'C' { 'c' }
        else if c == 'D' { 'd' } else if c == 'E' { 'e' } else if c == 'F' { 'f' }
        else if c == 'G' { 'g' } else if c == 'H' { 'h' } else if c == 'I' { 'i' }
        else if c == 'J' { 'j' } else if c == 'K' { 'k' } else if c == 'L' { 'l' }
        else if c == 'M' { 'm' } else if c == 'N' { 'n' } else if c == 'O' { 'o' }
        else if c == 'P' { 'p' } else if c == 'Q' { 'q' } else if c == 'R' { 'r' }
        else if c == 'S' { 's' } else if c == 'T' { 't' } else if c == 'U' { 'u' }
        else if c == 'V' { 'v' } else if c == 'W' { 'w' } else if c == 'X' { 'x' }
        else if c == 'Y' { 'y' } else { 'z' }
    } else {
        c
    }
}

/// Executable digit test matching `is_digit`.
pub fn is_digit_exec(c: char) -> (r: bool)
    ensures
        r == is_digit(c),
{
    '0' <= c && c <= '9'
}

/// `pat` occurs in `s` starting at position `i`.
pub open spec fn occurs_at(s: Seq<char>, pat: Seq<char>, i: int) -> bool {
    &&& 0 <= i
    &&& i + pat.len() <= s.len()
    &&& s.subrange(i, i + pat.len() as int) == pat
}

/// `pat` occurs somewhere in `s`.
pub open spec fn seq_contains(s: Seq<char>, pat: Seq<char>) -> bool {
    exists|i: int| occurs_at(s, pat, i)
}

/// Whether `pat` occurs in `text` at character position `i`.
pub fn match_at(text: &str, pat: &str, i: usize) -> (b: bool)
    requires
        i <= text@.len(),
    ensures
        b == occurs_at(text@, pat@, i as int),
{
    let n = text.unicode_len();
    let m = pat.unicode_len();
    if m > n - i {
        return false;
    }
    let mut k: usize = 0;
    while k < m
        invariant
            0 <= k <= m,
            i + m <= n,
            n == text@.len(),
            m == pat@.len(),
            forall|j: int| 0 <= j < k ==> text@[i + j] == pat@[j],
        decreases m - k,
    {
        if text.get_char(i + k) != pat.get_char(k) {
            proof {
                assert(text@.subrange(i as int, i + m) != pat@) by {
                    assert(text@.subrange(i as int, i + m)[k as int] == text@[i + k]);
                }
            }
            return false;
        }
        k += 1;
    }
    proof {
        assert(text@.subrange(i as int, i + m) =~= pat@);
    }
    true
}

/// Whether the ASCII-lower-cased `text` carries `pat` at character
/// position `i`.
pub fn match_at_lowered(text: &str, pat: &str, i: usize) -> (b: bool)
    requires
        i <= text@.len(),
    ensures
        b == occurs_at(lower_seq(text@), pat@, i as int),
{
    let ghost low = lower_seq(text@);
    proof {
        assert(low.len() == text@.len());
    }
    let n = text.unicode_len();
    let m = pat.unicode_len();
    if m > n - i {
        return false;
    }
    let mut k: usize = 0;
    while k < m
        invariant
            0 <= k <= m,
            i + m <= n,
            n == text@.len(),
            m == pat@.len(),
            low == lower_seq(text@),
            low.len() == n,
            forall|j: int| 0 <= j < k ==> low[i + j] == pat@[j],
        decreases m - k,
    {
        proof {
            assert(low[i + k] == lower_char(text@[i + k]));
        }
        if lower_char_exec(text.get_char(i + k)) != pat.get_char(k) {
            proof {
                assert(low.subrange(i as int, i + m) != pat@) by {
                    assert(low.subrange(i as int, i + m)[k as int] == low[i + k]);
                }
            }
            return false;
        }
        k += 1;
    }
    proof {
        assert(low.subrange(i as int, i + m) =~= pat@);
    }
    true
}

/// Whether the ASCII-lower-cased `text` carries `pat` anywhere.
pub fn contains_lowered(text: &str, pat: &str) -> (b: bool)
    ensures
        b == seq_contains(lower_seq(text@), pat@),
{
    let ghost low = lower_seq(text@);
    proof {
        assert(low.len() == text@.len());
    }
    let n = text.unicode_len();
    let m = pat.unicode_len();
    if m == 0 {
        proof {
            assert(low.subrange(0, 0) =~= pat@);
            assert(occurs_at(low, pat@, 0));
        }
        return true;
    }
    let mut i: usize = 0;
    while i < n
        invariant
            0 <= i <= n,
            n == text@.len(),
            m == pat@.len(),
            m > 0,
            low == lower_seq(text@),
            forall|j: int| 0 <= j < i ==> !occurs_at(low, pat@, j),
        decreases n - i,
    {
        if match_at_lowered(text, pat, i) {
            return true;
        }
        i += 1;
    }
    proof {
        assert forall|j: int| !occurs_at(low, pat@, j) by {
            if 0 <= j && j + pat@.len() <= low.len() {
                assert(j < n);
            }
        }
    }
    false
}

/// Left-to-right replacement of every non-overlapping occurrence of `pat`
/// by `to`, matching what std's `str::replace` does for a non-empty pattern.
pub open spec fn replace_all(s: Seq<char>, pat: Seq<char>, to: Seq<char>) -> Seq<char>
    decreases s.len(),
{
    if pat.len() == 0 || s.len() < pat.len() {
        s
    } else if s.subrange(0, pat.len() as int) == pat {
        to + replace_all(s.skip(pat.len() as int), pat, to)
    } else {
        seq![s[0]] + replace_all(s.skip(1), pat, to)
    }
}

/// Executable counterpart of `replace_all`.
pub fn replace_in(text: &str, pat: &str, to: &str) -> (r: String)
    requires
        pat@.len() > 0,
    ensures
        r@ == replace_all(text@, pat@, to@),
{
    let n = text.unicode_len();
    let m = pat.unicode_len();
    let mut out = String::new();
    let mut i: usize = 0;
    proof {
        assert(text@.skip(0) =~= text@);
        assert(Seq::<char>::empty() + replace_all(text@, pat@, to@) =~= replace_all(
            text@,
            pat@,
            to@,
        ));
    }
    while i < n
        invariant
            0 <= i <= n,
            n == text@.len(),
            m == pat@.len(),
            m > 0,
            replace_all(text@, pat@, to@) == out@ + replace_all(
                text@.skip(i as int),
                pat@,
                to@,
            ),
        decreases n - i,
    {
        let ghost rest = text@.skip(i as int);
        let ghost out0 = out@;
        if match_at(text, pat, i) {
            proof {
                assert(rest.subrange(0, m as int) =~= text@.subrange(i as int, i + m));
                assert(rest.skip(m as int) =~= text@.skip(i + m));
                assert(replace_all(rest, pat@, to@) == to@ + replace_all(
                    text@.skip(i + m),
                    pat@,
                    to@,
                ));
                assert(out0 + (to@ + replace_all(text@.skip(i + m), pat@, to@)) =~= (out0 + to@)
                    + replace_all(text@.skip(i + m), pat@, to@));
            }
            out.append(to);
            i += m;
        } else {
            proof {
                if rest.len() >= m {
                    assert(rest.subrange(0, m as int) =~= text@.subrange(i as int, i + m));
                    assert(rest.subrange(0, m as int) != pat@);
                }
                assert(rest.skip(1) =~= text@.skip(i + 1));
                assert(seq![rest[0]] =~= text@.subrange(i as int, i + 1));
                assert(replace_all(rest, pat@, to@) == text@.subrange(i as int, i + 1)
                    + replace_all(text@.skip(i + 1), pat@, to@));
                assert(out0 + (text@.subrange(i as int, i + 1) + replace_all(
                    text@.skip(i + 1),
                    pat@,
                    to@,
                )) =~= (out0 + text@.subrange(i as int, i + 1)) + replace_all(
                    text@.skip(i + 1),
                    pat@,
                    to@,
                ));
            }
            let piece = text.substring_char(i, i + 1);
            out.append(piece);
            i += 1;
        }
    }
    proof {
        assert(text@.skip(n as int) =~= Seq::<char>::empty());
        assert(out@ + replace_all(text@.skip(n as int), pat@, to@) =~= out@);
    }
    out
}

} // verus!
