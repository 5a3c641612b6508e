//! Helpers for replies of language models.

use vstd::prelude::*;
use crate::text::{strip_prefix, strip_suffix, trim, trim_str, str_strip_prefix, str_strip_suffix, starts_with};

verus! {

/// The body of `s` between an opening fence `open` and a closing fence
/// "```", when `s` has both.
pub open spec fn fenced_body(s: Seq<char>, open: Seq<char>) -> Option<Seq<char>> {
    match strip_prefix(s, open) {
        Some(inner) => strip_suffix(inner, "```"@),
        None => None,
    }
}

/// What `strip_code_block` returns: the trimmed body of a "```json" fenced
/// block, else the trimmed body of a "```" fenced block, else `s` itself.
pub open spec fn code_block_body(s: Seq<char>) -> Seq<char> {
    match fenced_body(s, "```json"@) {
        Some(inner) => trim(inner),
        None => match fenced_body(s, "```"@) {
            Some(inner) => trim(inner),
            None => s,
        },
    }
}

/// Removes a Markdown code fence (```` ```json ```` or ```` ``` ````) that wraps a
/// model's reply, trimming what was inside; other text is returned as is.
pub fn strip_code_block(s: &str) -> (r: &str)
    ensures
        r@ == code_block_body(s@),
        !starts_with(s@, "```"@) ==> r@ == s@,
{
    if let Some(rest) = str_strip_prefix(s, "```json") {
        if let Some(inner) = str_strip_suffix(rest, "```") {
            proof {
                reveal_strlit("```");
                reveal_strlit("```json");
                assert(starts_with(s@, "```json"@));
                assert(s@.subrange(0, 7) == "```json"@);
                assert("```json"@.subrange(0, 3) =~= "```"@);
                assert(s@.subrange(0, 3) =~= s@.subrange(0, 7).subrange(0, 3));
            }
            return trim_str(inner);
        }
    }
    let second = match str_strip_prefix(s, "```") {
        Some(rest) => str_strip_suffix(rest, "```"),
        None => None,
    };
    if let Some(inner) = second {
        trim_str(inner)
    } else {
        proof {
            if !starts_with(s@, "```"@) {
                assert(fenced_body(s@, "```"@) is None);
                reveal_strlit("```");
                reveal_strlit("```json");
                assert("```json"@.subrange(0, 3) =~= "```"@);
                if starts_with(s@, "```json"@) {
                    assert(s@.subrange(0, 3) =~= s@.subrange(0, 7).subrange(0, 3));
                }
            }
        }
        s
    }
}

} // verus!
