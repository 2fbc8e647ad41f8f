//! Text helpers: whitespace trimming, quote stripping and reading one member of
//! a JSON document.

use vstd::prelude::*;

verus! {

/// Unicode's `White_Space` property.
pub open spec fn is_white_space(c: char) -> bool {
    let n = c as u32;
    ||| 0x9 <= n <= 0xd
    ||| n == 0x20
    ||| n == 0x85
    ||| n == 0xa0
    ||| n == 0x1680
    ||| 0x2000 <= n <= 0x200a
    ||| n == 0x2028
    ||| n == 0x2029
    ||| n == 0x202f
    ||| n == 0x205f
    ||| n == 0x3000
}

/// `s` without its leading whitespace.
pub open spec fn trim_start(s: Seq<char>) -> Seq<char>
    decreases s.len(),
{
    if s.len() > 0 && is_white_space(s[0]) {
        trim_start(s.drop_first())
    } else {
        s
    }
}

/// `s` without its trailing whitespace.
pub open spec fn trim_end(s: Seq<char>) -> Seq<char>
    decreases s.len(),
{
    if s.len() > 0 && is_white_space(s.last()) {
        trim_end(s.drop_last())
    } else {
        s
    }
}

/// `s` without leading and trailing whitespace.
pub open spec fn trimmed(s: Seq<char>) -> Seq<char> {
    trim_end(trim_start(s))
}

/// `s` with every `"` removed.
pub open spec fn without_quotes(s: Seq<char>) -> Seq<char> {
    s.filter(|c: char| c != '"')
}

/// A field value as providers' JSON renders it, cleaned: surrounding whitespace
/// trimmed, then every `"` removed.
pub open spec fn normalized(s: Seq<char>) -> Seq<char> {
    without_quotes(trimmed(s))
}

/// Relies on `str::trim`: removes leading and trailing `White_Space` characters.
#[verifier::external_body]
fn trim(s: &str) -> (r: &str)
    ensures
        r@ == trimmed(s@),
{
    s.trim()
}

/// Relies on `String::push`: appends one character.
#[verifier::external_body]
pub(crate) fn push_char(s: &mut String, c: char)
    ensures
        final(s)@ == old(s)@.push(c),
{
    s.push(c)
}

/// Copies `s`, leaving out every `"`.
pub fn strip_quotes(s: &str) -> (r: String)
    ensures
        r@ == without_quotes(s@),
{
    let n = s.unicode_len();
    let mut out = String::new();
    let mut i: usize = 0;
    while i < n
        invariant
            n == s@.len(),
            i <= n,
            out@ == without_quotes(s@.subrange(0, i as int)),
        decreases n - i,
    {
        let c = s.get_char(i);
        proof {
            let next = s@.subrange(0, i as int + 1);
            assert(next.drop_last() =~= s@.subrange(0, i as int));
            assert(next.last() == c);
            reveal(Seq::filter);
        }
        if c != '"' {
            push_char(&mut out, c);
        }
        i = i + 1;
    }
    assert(s@.subrange(0, n as int) =~= s@);
    out
}

/// Cleans a value read from a provider's JSON reply: trims surrounding
/// whitespace, then removes the `"` characters that rendering a JSON string
/// leaves around it.
pub fn normalize_field(raw: &str) -> (r: String)
    ensures
        r@ == normalized(raw@),
{
    strip_quotes(trim(raw))
}

/// The compact JSON text of member `key` of the JSON object in `body`, as
/// `serde_json` renders it; `None` where `body` is not JSON or lacks the member.
pub uninterp spec fn json_member_text(body: Seq<char>, key: Seq<char>) -> Option<Seq<char>>;

/// Relies on `serde_json::from_str`, `serde_json::Value::get` and the `Display`
/// of `serde_json::Value`: parses `body`, looks up `key`, renders that member.
#[verifier::external_body]
pub(crate) fn read_json_member(body: &str, key: &str) -> (r: Option<String>)
    ensures
        match r {
            Some(t) => json_member_text(body@, key@) == Some(t@),
            None => json_member_text(body@, key@) is None,
        },
{
    let value: serde_json::Value = serde_json::from_str(body).ok()?;
    value.get(key).map(|member| member.to_string())
}

/// Member `key` of the JSON object in `body`, rendered and then cleaned.
pub open spec fn clean_member(body: Seq<char>, key: Seq<char>) -> Option<Seq<char>> {
    match json_member_text(body, key) {
        Some(t) => Some(normalized(t)),
        None => None,
    }
}

/// Reads member `key` of the JSON object in `body` and cleans it; `None` where
/// `body` is not JSON or has no such member.
pub fn read_clean_member(body: &str, key: &str) -> (r: Option<String>)
    ensures
        match r {
            Some(s) => clean_member(body@, key@) == Some(s@),
            None => clean_member(body@, key@) is None,
        },
{
    match read_json_member(body, key) {
        Some(raw) => Some(normalize_field(raw.as_str())),
        None => None,
    }
}

} // verus!
