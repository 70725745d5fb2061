//! The one-time code that a user pipes into the client on standard input.

use vstd::prelude::*;

verus! {

/// Whether `c` has the Unicode `White_Space` property, the set of characters
/// that `char::is_whitespace` accepts and `str::trim` removes.
pub open spec fn is_white_space(c: char) -> bool {
    let v = c as u32;
    ||| 0x09 <= v <= 0x0d
    ||| v == 0x20
    ||| v == 0x85
    ||| v == 0xa0
    ||| v == 0x1680
    ||| 0x2000 <= v <= 0x200a
    ||| v == 0x2028
    ||| v == 0x2029
    ||| v == 0x202f
    ||| v == 0x205f
    ||| v == 0x3000
}

/// Every character of `s` is white space.
pub open spec fn only_white_space(s: Seq<char>) -> bool {
    forall|i: int| 0 <= i < s.len() ==> is_white_space(#[trigger] s[i])
}

/// No character of `s` is white space.
pub open spec fn free_of_white_space(s: Seq<char>) -> bool {
    forall|i: int| 0 <= i < s.len() ==> !is_white_space(#[trigger] s[i])
}

/// `s[start..end]` is one code token: it is non-empty, holds no white space,
/// and only white space stands before and after it.
pub open spec fn token_bounds(s: Seq<char>, start: int, end: int) -> bool {
    &&& 0 <= start < end <= s.len()
    &&& only_white_space(s.subrange(0, start))
    &&& free_of_white_space(s.subrange(start, end))
    &&& only_white_space(s.subrange(end, s.len() as int))
}

/// `s` holds exactly one code token, possibly surrounded by white space.
pub open spec fn holds_one_token(s: Seq<char>) -> bool {
    exists|start: int, end: int| #[trigger] token_bounds(s, start, end)
}

/// Why a code read from standard input was refused.
#[derive(Debug, Clone, Copy, PartialEq, Eq, Structural)]
pub enum CodeError {
    /// The input, once trimmed, is empty, spans several lines, or holds
    /// white space inside it.
    NotOneToken,
}

impl CodeError {
    /// The message shown to the user. It never repeats the input, so a
    /// mistyped code does not leak into logs.
    pub fn message(&self) -> (text: String)
        ensures
            text@ == "stdin code must be one non-empty token"@,
    {
        String::from_str("stdin code must be one non-empty token")
    }
}

fn white_space(c: char) -> (r: bool)
    ensures
        r == is_white_space(c),
{
    let v = c as u32;
    (0x09 <= v && v <= 0x0d) || v == 0x20 || v == 0x85 || v == 0xa0 || v == 0x1680 || (0x2000
        <= v && v <= 0x200a) || v == 0x2028 || v == 0x2029 || v == 0x202f || v == 0x205f || v
        == 0x3000
}

/// A token's bounds are fixed by the first and the last character that is
/// not white space.
proof fn lemma_token_bounds_unique(s: Seq<char>, start: int, end: int, a: int, b: int)
    requires
        token_bounds(s, a, b),
        0 <= start < end <= s.len(),
        forall|i: int| 0 <= i < start ==> is_white_space(#[trigger] s[i]),
        !is_white_space(s[start]),
        forall|i: int| end <= i < s.len() ==> is_white_space(#[trigger] s[i]),
        !is_white_space(s[end - 1]),
    ensures
        a == start,
        b == end,
{
    if a < start {
        assert(s.subrange(a, b)[0] == s[a]);
    }
    if a > start {
        assert(s.subrange(0, a)[start] == s[start]);
    }
    if b > end {
        assert(s.subrange(a, b)[b - 1 - a] == s[b - 1]);
    }
    if b < end {
        assert(s.subrange(b, s.len() as int)[end - 1 - b] == s[end - 1]);
    }
}

/// Validates a one-time code read from standard input: the text is trimmed
/// of surrounding white space and must then be a single non-empty token.
/// On success the token is returned, and nothing else.
pub fn read_code(input: &str) -> (r: Result<String, CodeError>)
    ensures
        r is Ok <==> holds_one_token(input@),
        r matches Ok(code) ==> exists|start: int, end: int|
            #[trigger] token_bounds(input@, start, end) && code@ == input@.subrange(start, end),
{
    let n = input.unicode_len();
    let ghost s = input@;
    let mut start: usize = 0;
    while start < n && white_space(input.get_char(start))
        invariant
            start <= n,
            n == s.len(),
            s == input@,
            forall|i: int| 0 <= i < start ==> is_white_space(#[trigger] s[i]),
        decreases n - start,
    {
        start = start + 1;
    }
    if start == n {
        proof {
            assert forall|a: int, b: int| !token_bounds(s, a, b) by {
                if token_bounds(s, a, b) {
                    assert(s.subrange(a, b)[0] == s[a]);
                }
            }
        }
        return Err(CodeError::NotOneToken);
    }
    let mut end: usize = n;
    while end > start + 1 && white_space(input.get_char(end - 1))
        invariant
            start < end <= n,
            n == s.len(),
            s == input@,
            !is_white_space(s[start as int]),
            forall|i: int| 0 <= i < start ==> is_white_space(#[trigger] s[i]),
            forall|i: int| end <= i < n ==> is_white_space(#[trigger] s[i]),
        decreases end,
    {
        end = end - 1;
    }
    assert(!is_white_space(s[end - 1]));
    let mut i: usize = start;
    while i < end
        invariant
            start <= i <= end <= n,
            n == s.len(),
            s == input@,
            forall|k: int| start <= k < i ==> !is_white_space(#[trigger] s[k]),
            forall|k: int| 0 <= k < start ==> is_white_space(#[trigger] s[k]),
            forall|k: int| end <= k < n ==> is_white_space(#[trigger] s[k]),
            !is_white_space(s[start as int]),
            !is_white_space(s[end - 1]),
            start < end,
        decreases end - i,
    {
        if white_space(input.get_char(i)) {
            proof {
                assert forall|a: int, b: int| !token_bounds(s, a, b) by {
                    if token_bounds(s, a, b) {
                        lemma_token_bounds_unique(s, start as int, end as int, a, b);
                        assert(s.subrange(a, b)[i - a] == s[i as int]);
                    }
                }
            }
            return Err(CodeError::NotOneToken);
        }
        i = i + 1;
    }
    let token = input.substring_char(start, end);
    proof {
        assert(token_bounds(s, start as int, end as int));
    }
    Ok(String::from_str(token))
}

/// A token padded with white space on either side is read back unchanged:
/// `read_code` accepts `before + token + after` and returns exactly `token`.
pub proof fn lemma_padded_token_is_read(before: Seq<char>, token: Seq<char>, after: Seq<char>)
    requires
        only_white_space(before),
        token.len() > 0,
        free_of_white_space(token),
        only_white_space(after),
    ensures
        holds_one_token(before + token + after),
        forall|start: int, end: int|
            #[trigger] token_bounds(before + token + after, start, end) ==> (before + token
                + after).subrange(start, end) == token,
{
    let s = before + token + after;
    let a = before.len() as int;
    let b = a + token.len();
    assert(s.subrange(0, a) =~= before);
    assert(s.subrange(a, b) =~= token);
    assert(s.subrange(b, s.len() as int) =~= after);
    assert(token_bounds(s, a, b));
    assert forall|start: int, end: int| #[trigger] token_bounds(s, start, end) implies s.subrange(
        start,
        end,
    ) == token by {
        assert forall|i: int| 0 <= i < a implies is_white_space(#[trigger] s[i]) by {
            assert(s[i] == before[i]);
        }
        assert(s[a] == token[0]);
        assert forall|i: int| b <= i < s.len() implies is_white_space(#[trigger] s[i]) by {
            assert(s[i] == after[i - b]);
        }
        assert(s[b - 1] == token[token.len() - 1]);
        lemma_token_bounds_unique(s, a, b, start, end);
    }
}

} // verus!
