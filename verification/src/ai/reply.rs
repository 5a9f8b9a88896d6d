//! The HTTP seam of the AI features and the handling of what comes back.

use vstd::prelude::*;

use crate::text::{chars_of, decimal, push_decimal};

verus! {

/// The Anthropic Messages endpoint.
pub const ANTHROPIC_MESSAGES_URL: &'static str = "https://api.anthropic.com/v1/messages";

/// The API version header value pinned to.
pub const ANTHROPIC_VERSION: &'static str = "2023-06-01";

/// A minimal HTTP seam, so the AI logic is testable without the network:
/// POST a JSON body to a URL with headers; get the status and body back. A
/// transport-level failure is the `Err` arm; HTTP error statuses come back as
/// `Ok` so the caller can read the API's error body.
pub trait HttpTransport {
    fn post_json(&self, url: &str, headers: &[(&str, &str)], body: &str) -> Result<
        (u16, String),
        String,
    >;
}

/// The position of the first `c` at or after `i` in `s` (`s.len()` if none).
pub open spec fn first_from(s: Seq<char>, c: char, i: int) -> int
    decreases s.len() - i,
{
    if i >= s.len() {
        s.len() as int
    } else if s[i] == c {
        i
    } else {
        first_from(s, c, i + 1)
    }
}

/// The position of the last `c` before `j` in `s` (`-1` if none).
pub open spec fn last_before(s: Seq<char>, c: char, j: int) -> int
    decreases j,
{
    if j <= 0 {
        -1
    } else if s[j - 1] == c {
        j - 1
    } else {
        last_before(s, c, j - 1)
    }
}

/// The span from the first `{` to the last `}` of `s`, when the last `}` comes
/// after the first `{`.
pub open spec fn json_object_in(s: Seq<char>) -> Option<Seq<char>> {
    let start = first_from(s, '{', 0);
    let end = last_before(s, '}', s.len() as int);
    if start < s.len() && end >= 0 && end > start {
        Some(s.subrange(start, end + 1))
    } else {
        None
    }
}

/// `first_from` finds the first `c` at or after `i`.
proof fn lemma_first_from(s: Seq<char>, c: char, i: int)
    requires
        0 <= i <= s.len(),
    ensures
        i <= first_from(s, c, i) <= s.len(),
        first_from(s, c, i) < s.len() ==> s[first_from(s, c, i)] == c,
        forall|k: int| i <= k < first_from(s, c, i) ==> s[k] != c,
    decreases s.len() - i,
{
    if i < s.len() && s[i] != c {
        lemma_first_from(s, c, i + 1);
    }
}

/// `last_before` finds the last `c` before `j`.
proof fn lemma_last_before(s: Seq<char>, c: char, j: int)
    requires
        0 <= j <= s.len(),
    ensures
        -1 <= last_before(s, c, j) < j,
        last_before(s, c, j) >= 0 ==> s[last_before(s, c, j)] == c,
        forall|k: int| last_before(s, c, j) < k < j ==> s[k] != c,
    decreases j,
{
    if j > 0 && s[j - 1] != c {
        lemma_last_before(s, c, j - 1);
    }
}

/// `o` sits in `s` at `a` as its outermost braces: it is the piece of `s`
/// from `a`, opens with `{` and closes with `}`, no `{` comes before it and no
/// `}` after it.
pub open spec fn outermost_braces_at(s: Seq<char>, o: Seq<char>, a: int) -> bool {
    &&& 0 <= a && a + o.len() <= s.len()
    &&& s.subrange(a, a + o.len()) == o
    &&& o.len() >= 2 && o[0] == '{' && o[o.len() - 1] == '}'
    &&& forall|k: int| 0 <= k < a ==> s[k] != '{'
    &&& forall|k: int| a + o.len() <= k < s.len() ==> s[k] != '}'
}

/// What is taken out of a reply is its outermost braces: a contiguous piece
/// of the reply that opens with `{` and closes with `}`, with no `{` before it
/// and no `}` after it. Nothing is taken exactly when no `}` follows a `{`.
pub proof fn lemma_json_object_is_the_outermost_braces(s: Seq<char>)
    ensures
        json_object_in(s) is Some ==> exists|a: int|
            outermost_braces_at(s, json_object_in(s)->0, a),
        json_object_in(s) is None <==> !(exists|i: int, j: int|
            0 <= i < j < s.len() && s[i] == '{' && s[j] == '}'),
{
    lemma_first_from(s, '{', 0);
    lemma_last_before(s, '}', s.len() as int);
    let start = first_from(s, '{', 0);
    let end = last_before(s, '}', s.len() as int);
    if start < s.len() && end >= 0 && end > start {
        let o = s.subrange(start, end + 1);
        assert(o[0] == s[start]);
        assert(o[o.len() - 1] == s[end]);
        assert(start + o.len() == end + 1);
        assert(s.subrange(start, start + o.len()) =~= o);
        assert(s[start] == '{' && s[end] == '}');
        assert(forall|k: int| 0 <= k < start ==> s[k] != '{');
        assert(forall|k: int| start + o.len() <= k < s.len() ==> s[k] != '}');
        assert(json_object_in(s) == Some(o));
        assert(json_object_in(s)->0 == o);
        assert(outermost_braces_at(s, json_object_in(s)->0, start));
        assert(s[start] == '{' && s[end] == '}' && 0 <= start < end < s.len());
    } else {
        assert(json_object_in(s) is None);
        assert forall|i: int, j: int| 0 <= i < j < s.len() && s[i] == '{' implies s[j] != '}' by {
            if s[j] == '}' {
                assert(start <= i);
                assert(j <= end);
            }
        }
    }
}

/// Slice out the outermost `{...}` of a model's reply, tolerating prose or
/// markdown fences around it.
pub fn extract_json_object(text: &str) -> (r: Option<String>)
    ensures
        r is None <==> json_object_in(text@) is None,
        r matches Some(o) ==> json_object_in(text@) == Some(o@),
        r matches Some(o) ==> o@.len() >= 2 && o@[0] == '{' && o@[o@.len() - 1] == '}',
        r is None <==> !(exists|i: int, j: int|
            0 <= i < j < text@.len() && text@[i] == '{' && text@[j] == '}'),
{
    proof {
        lemma_json_object_is_the_outermost_braces(text@);
    }
    let cs = chars_of(text);
    let n = cs.len();
    let mut start: usize = 0;
    while start < n && cs[start] != '{'
        invariant
            cs@ == text@,
            n == cs@.len(),
            start <= n,
            first_from(text@, '{', 0) == first_from(text@, '{', start as int),
        decreases n - start,
    {
        start = start + 1;
    }
    let mut end: usize = n;
    while end > 0 && cs[end - 1] != '}'
        invariant
            cs@ == text@,
            n == cs@.len(),
            end <= n,
            last_before(text@, '}', n as int) == last_before(text@, '}', end as int),
        decreases end,
    {
        end = end - 1;
    }
    if start < n && end > 0 && end - 1 > start {
        Some(text.substring_char(start, end).to_string())
    } else {
        None
    }
}

/// The message for a non-2xx answer from the Messages API.
pub open spec fn http_error_message(status: u16, body: Seq<char>) -> Seq<char> {
    "Anthropic API returned HTTP "@ + decimal(status as nat) + ": "@ + body
}

/// Accept a 2xx answer; otherwise surface the status and the API's error body
/// (so the UI can say "your key is invalid" and the like).
pub fn check_http_status(status: u16, body: &str) -> (r: Result<(), String>)
    ensures
        r is Ok <==> 200 <= status < 300,
        r matches Err(m) ==> m@ == http_error_message(status, body@),
{
    if 200 <= status && status < 300 {
        return Ok(());
    }
    let mut m = "Anthropic API returned HTTP ".to_string();
    push_decimal(&mut m, status as u64);
    m.append(": ");
    m.append(body);
    Err(m)
}

} // verus!
