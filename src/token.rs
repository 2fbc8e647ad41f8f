//! Internal session tokens.

use rand::Rng;
use vstd::prelude::*;
use crate::text::push_char;

verus! {

/// Length of an internal session token.
pub const TOKEN_LEN: usize = 30;

/// An ASCII letter or digit.
pub open spec fn is_token_char(c: char) -> bool {
    ||| ('a' as u32) <= (c as u32) <= ('z' as u32)
    ||| ('A' as u32) <= (c as u32) <= ('Z' as u32)
    ||| ('0' as u32) <= (c as u32) <= ('9' as u32)
}

/// The shape of every internal session token: `TOKEN_LEN` ASCII letters and digits.
pub open spec fn is_session_token(s: Seq<char>) -> bool {
    &&& s.len() == TOKEN_LEN
    &&& forall|i: int| 0 <= i < s.len() ==> is_token_char(#[trigger] s[i])
}

/// Relies on `rand::thread_rng` and `rand::distributions::Alphanumeric`: one
/// byte drawn uniformly from `A-Z`, `a-z` and `0-9`.
#[verifier::external_body]
fn draw_alphanumeric() -> (c: char)
    ensures
        is_token_char(c),
{
    rand::thread_rng().sample(rand::distributions::Alphanumeric) as char
}

/// Draws a fresh internal session token.
pub fn generate_token() -> (r: String)
    ensures
        is_session_token(r@),
{
    let mut out = String::new();
    let mut i: usize = 0;
    while i < TOKEN_LEN
        invariant
            i <= TOKEN_LEN,
            out@.len() == i,
            forall|j: int| 0 <= j < i ==> is_token_char(#[trigger] out@[j]),
        decreases TOKEN_LEN - i,
    {
        let c = draw_alphanumeric();
        push_char(&mut out, c);
        i = i + 1;
    }
    out
}

} // verus!
