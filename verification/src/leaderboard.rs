//! Leaderboard post-processing: raw upstream leaderboard text is turned
//! into a line-per-entry form; the attribution substring is stripped before
//! the separator is split, so a split point touching it is never corrupted.
use vstd::prelude::*;

use crate::text::replace_all;
use crate::text::replace_in;

verus! {

/// The normalized form of raw leaderboard text: every occurrence of the
/// literal attribution `(by aoe2insights.com)` removed first, then every
/// occurrence of the separator `, ` replaced by a line break.
pub open spec fn formatted_leaderboard(raw: Seq<char>) -> Seq<char> {
    replace_all(replace_all(raw, "(by aoe2insights.com)"@, ""@), ", "@, "\n"@)
}

/// Normalizes raw leaderboard text to one entry per line; a pure string
/// transformation, no interpretation of leaderboard structure.
pub fn format_leaderboard(raw: &str) -> (r: String)
    ensures
        r@ == formatted_leaderboard(raw@),
{
    proof {
        reveal_strlit("(by aoe2insights.com)");
        reveal_strlit(", ");
    }
    let stripped = replace_in(raw, "(by aoe2insights.com)", "");
    replace_in(stripped.as_str(), ", ", "\n")
}

} // verus!
