//! Identifier extraction: the first nine-digit run in a text that is
//! delimited on both sides by a non-digit character or the string boundary.
use vstd::prelude::*;
use vstd::string::StrSliceExecFns;

use crate::text::is_digit;
use crate::text::is_digit_exec;
use crate::text::lemma_lower_char_digit;
use crate::text::lower_seq;

verus! {

/// A bounded nine-digit run starts at position `i` of `s`: nine digits,
/// preceded and followed by a non-digit character or the string boundary.
pub open spec fn nine_run_at(s: Seq<char>, i: int) -> bool {
    &&& 0 <= i
    &&& i + 9 <= s.len()
    &&& (forall|j: int| i <= j < i + 9 ==> is_digit(s[j]))
    &&& (i == 0 || !is_digit(s[i - 1]))
    &&& (i + 9 == s.len() || !is_digit(s[i + 9]))
}

/// The position of the first bounded nine-digit run at or after `from`.
pub open spec fn first_nine_run_from(s: Seq<char>, from: int) -> Option<int>
    decreases s.len() - from,
{
    if from + 9 > s.len() {
        None
    } else if nine_run_at(s, from) {
        Some(from)
    } else {
        first_nine_run_from(s, from + 1)
    }
}

/// The position of the first bounded nine-digit run of `s`, if any.
pub open spec fn first_nine_run(s: Seq<char>) -> Option<int> {
    first_nine_run_from(s, 0)
}

/// What extraction yields on `s`: the first bounded nine-digit run.
pub open spec fn extracted_id(s: Seq<char>) -> Option<Seq<char>> {
    match first_nine_run(s) {
        Some(i) => Some(s.subrange(i, i + 9)),
        None => None,
    }
}

/// `first_nine_run_from` finds a bounded nine-digit run, skips no earlier
/// one, and answers `None` only where none follows.
pub proof fn lemma_first_from_characterized(s: Seq<char>, from: int)
    ensures
        match first_nine_run_from(s, from) {
            Some(i) => from <= i && nine_run_at(s, i) && (forall|j: int|
                from <= j < i ==> !nine_run_at(s, j)),
            None => forall|j: int| from <= j ==> !nine_run_at(s, j),
        },
    decreases s.len() - from,
{
    if from + 9 > s.len() {
    } else if nine_run_at(s, from) {
    } else {
        lemma_first_from_characterized(s, from + 1);
    }
}

/// Law: a bounded nine-digit run before which no other starts is exactly
/// what extraction yields.
pub proof fn lemma_extracts_first_run(s: Seq<char>, i: int)
    requires
        nine_run_at(s, i),
        forall|j: int| 0 <= j < i ==> !nine_run_at(s, j),
    ensures
        extracted_id(s) == Some(s.subrange(i, i + 9)),
{
    lemma_first_from_characterized(s, 0);
    match first_nine_run(s) {
        Some(k) => {
            if k < i {
                assert(!nine_run_at(s, k));
            }
            if i < k {
                assert(!nine_run_at(s, i));
            }
        },
        None => {
            assert(!nine_run_at(s, i));
        },
    }
}

/// Law: where no bounded nine-digit run exists, nothing is extracted.
pub proof fn lemma_no_run_no_id(s: Seq<char>)
    requires
        forall|i: int| !nine_run_at(s, i),
    ensures
        extracted_id(s) is None,
{
    lemma_first_from_characterized(s, 0);
    match first_nine_run(s) {
        Some(k) => {
            assert(!nine_run_at(s, k));
        },
        None => {},
    }
}

/// Law: no position of a maximal digit run `[a, b)` whose length is not
/// nine starts a bounded nine-digit run; in particular a longer run that
/// merely contains nine digits does not match.
pub proof fn lemma_wrong_length_run_rejected(s: Seq<char>, a: int, b: int, k: int)
    requires
        0 <= a <= k < b <= s.len(),
        forall|j: int| a <= j < b ==> is_digit(s[j]),
        a == 0 || !is_digit(s[a - 1]),
        b == s.len() || !is_digit(s[b]),
        b - a != 9,
    ensures
        !nine_run_at(s, k),
{
    if nine_run_at(s, k) {
        if k > a {
            assert(is_digit(s[k - 1]));
        } else {
            if b - a < 9 {
                assert(b < k + 9);
                assert(b < s.len() ==> is_digit(s[b]));
            } else {
                assert(is_digit(s[k + 9]));
            }
        }
    }
}

/// Law: ASCII lower-casing moves no digit and creates none, so extraction
/// sees the same identifier in a text and in its lower-cased form.
pub proof fn lemma_lower_preserves_extraction(s: Seq<char>)
    ensures
        extracted_id(lower_seq(s)) == extracted_id(s),
{
    let low = lower_seq(s);
    assert(low.len() == s.len());
    assert forall|j: int| 0 <= j < s.len() implies is_digit(low[j]) == is_digit(s[j]) by {
        lemma_lower_char_digit(s[j]);
    }
    assert forall|i: int| nine_run_at(low, i) == nine_run_at(s, i) by {
        if nine_run_at(low, i) {
            assert forall|j: int| i <= j < i + 9 implies is_digit(s[j]) by {
                assert(is_digit(low[j]));
            }
            assert(nine_run_at(s, i));
        }
        if nine_run_at(s, i) {
            assert forall|j: int| i <= j < i + 9 implies is_digit(low[j]) by {
                assert(is_digit(s[j]));
            }
            assert(nine_run_at(low, i));
        }
    }
    lemma_lower_first_from(s, 0);
    lemma_first_from_characterized(s, 0);
    match first_nine_run(s) {
        Some(i) => {
            assert(nine_run_at(s, i));
            assert forall|j: int| i <= j < i + 9 implies low[j] == s[j] by {
                assert(is_digit(s[j]));
                lemma_lower_char_digit(s[j]);
            }
            assert(low.subrange(i, i + 9) =~= s.subrange(i, i + 9));
        },
        None => {},
    }
}

proof fn lemma_lower_first_from(s: Seq<char>, from: int)
    requires
        lower_seq(s).len() == s.len(),
        forall|i: int| nine_run_at(lower_seq(s), i) == nine_run_at(s, i),
    ensures
        first_nine_run_from(lower_seq(s), from) == first_nine_run_from(s, from),
    decreases s.len() - from,
{
    if from + 9 > s.len() {
    } else if nine_run_at(s, from) {
    } else {
        lemma_lower_first_from(s, from + 1);
    }
}

/// A validated canonical match identifier: exactly nine ASCII digits,
/// taken from a text as a whole digit token.
pub struct MatchId {
    digits: String,
}

impl View for MatchId {
    type V = Seq<char>;

    closed spec fn view(&self) -> Seq<char> {
        self.digits@
    }
}

impl MatchId {
    /// The invariant of a canonical identifier: nine ASCII digits.
    pub open spec fn wf(&self) -> bool {
        self@.len() == 9 && forall|j: int| 0 <= j < 9 ==> is_digit(self@[j])
    }

    /// The digits as a string slice.
    pub fn as_str(&self) -> (r: &str)
        ensures
            r@ == self@,
    {
        self.digits.as_str()
    }

    /// Validates a whole string as a canonical identifier: accepted exactly
    /// when it consists of nine ASCII digits.
    pub fn new(s: &str) -> (r: Option<MatchId>)
        ensures
            r is Some <==> (s@.len() == 9 && forall|j: int| 0 <= j < 9 ==> is_digit(s@[j])),
            r is Some ==> r->0@ == s@ && r->0.wf(),
    {
        let n = s.unicode_len();
        if n != 9 {
            return None;
        }
        let mut k: usize = 0;
        while k < 9
            invariant
                0 <= k <= 9,
                s@.len() == 9,
                forall|j: int| 0 <= j < k ==> is_digit(s@[j]),
            decreases 9 - k,
        {
            if !is_digit_exec(s.get_char(k)) {
                return None;
            }
            k += 1;
        }
        Some(MatchId { digits: s.to_owned() })
    }
}

/// End of the maximal digit run of `text` that begins at `start`.
fn digit_run_end(text: &str, start: usize) -> (end: usize)
    requires
        start < text@.len(),
        is_digit(text@[start as int]),
    ensures
        start < end <= text@.len(),
        forall|j: int| start <= j < end ==> is_digit(text@[j]),
        end < text@.len() ==> !is_digit(text@[end as int]),
{
    let n = text.unicode_len();
    let mut end = start + 1;
    while end < n
        invariant
            start < end <= n,
            n == text@.len(),
            forall|j: int| start <= j < end ==> is_digit(text@[j]),
        decreases n - end,
    {
        if !is_digit_exec(text.get_char(end)) {
            return end;
        }
        end += 1;
    }
    end
}

/// Finds the first nine-digit run of `text` that is bounded on both sides
/// by a non-digit character or the string boundary, scanning left to right;
/// digit runs of any other length never match, so a nine-digit substring
/// embedded in a longer number is rejected.
pub fn extract(text: &str) -> (r: Option<MatchId>)
    ensures
        r is Some <==> extracted_id(text@) is Some,
        r is Some ==> extracted_id(text@) == Some(r->0@) && r->0.wf(),
{
    let ghost s = text@;
    let n = text.unicode_len();
    let mut i: usize = 0;
    while i < n
        invariant
            0 <= i <= n,
            n == s.len(),
            s == text@,
            forall|j: int| 0 <= j < i ==> !nine_run_at(s, j),
            i < n ==> (i == 0 || !(is_digit(s[i - 1]) && is_digit(s[i as int]))),
        decreases n - i,
    {
        let c = text.get_char(i);
        if !is_digit_exec(c) {
            i += 1;
        } else {
            let start = i;
            let end = digit_run_end(text, start);
            if end - start == 9 {
                proof {
                    assert(nine_run_at(s, start as int));
                    lemma_extracts_first_run(s, start as int);
                }
                let run = text.substring_char(start, end);
                let id = MatchId { digits: run.to_owned() };
                return Some(id);
            }
            proof {
                assert forall|k: int| start <= k < end implies !nine_run_at(s, k) by {
                    lemma_wrong_length_run_rejected(s, start as int, end as int, k);
                }
            }
            i = end;
        }
    }
    proof {
        assert forall|j: int| !nine_run_at(s, j) by {
            if 0 <= j && j + 9 <= s.len() {
                assert(j < n);
            }
        }
        lemma_no_run_no_id(s);
    }
    None
}

} // verus!
