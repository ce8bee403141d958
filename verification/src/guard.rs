//! The shared-secret guard in front of the recipes surface.

use vstd::prelude::*;

verus! {

/// What a request that is turned away is answered.
#[derive(Debug, PartialEq, Eq)]
pub struct Refusal {
    pub status: u16,
    pub text: String,
}

/// Whether a header byte is a visible ASCII character, a space or a tab.
pub open spec fn is_visible(b: u8) -> bool {
    32 <= b < 127 || b == 9
}

/// The characters of a header value, where all of them are visible.
pub open spec fn header_text(bytes: Seq<u8>) -> Option<Seq<char>> {
    if forall|i: int| 0 <= i < bytes.len() ==> is_visible(#[trigger] bytes[i]) {
        Some(bytes.map_values(|b: u8| b as char))
    } else {
        None
    }
}

/// What follows the word `Bearer` and a space.
pub open spec fn after_bearer(text: Seq<char>) -> Option<Seq<char>> {
    let prefix = "Bearer "@;
    if prefix.is_prefix_of(text) {
        Some(text.skip(prefix.len() as int))
    } else {
        None
    }
}

/// The token that an authorization header presents.
pub open spec fn presented(header: Option<Seq<u8>>) -> Option<Seq<char>> {
    match header {
        Some(bytes) => match header_text(bytes) {
            Some(text) => after_bearer(text),
            None => None,
        },
        None => None,
    }
}

/// Whether a presented token opens the surface: only the expected one does, and nothing where
/// none is expected or the expected one is empty.
pub open spec fn admits(provided: Option<Seq<char>>, expected: Option<Seq<char>>) -> bool {
    &&& expected matches Some(token)
    &&& token.len() > 0
    &&& provided == Some(token)
}

/// Compares bytes without stopping early: every byte of the longer run is gone through,
/// whatever the lengths are and wherever the bytes differ.
pub fn ct_eq(a: &[u8], b: &[u8]) -> (equal: bool)
    ensures
        equal == (a@ == b@),
{
    let (m, n): (usize, usize) = (a.len(), b.len());
    let longer: usize = if m < n {
        n
    } else {
        m
    };
    let mut diff: usize = m ^ n;
    assert(m ^ n == 0 <==> m == n) by (bit_vector);
    let mut i: usize = 0;
    while i < longer
        invariant
            m == a@.len(),
            n == b@.len(),
            m <= longer,
            n <= longer,
            m == n ==> longer == m,
            i <= longer,
            diff == 0 <==> m == n && (forall|k: int| 0 <= k < i ==> a@[k] == b@[k]),
        decreases longer - i,
    {
        let x: u8 = if i < m {
            a[i]
        } else {
            0
        };
        let y: u8 = if i < n {
            b[i]
        } else {
            0
        };
        let before: usize = diff;
        diff = before | ((x ^ y) as usize);
        assert(before | ((x ^ y) as usize) == 0 <==> before == 0 && x == y) by (bit_vector);
        i = i + 1;
    }
    assert(diff == 0 <==> a@ =~= b@);
    diff == 0
}

/// Whether the presented token opens the surface.
pub fn bearer_ok(provided: Option<&str>, expected: Option<&str>) -> (ok: bool)
    ensures
        ok == admits(crate::text::str_view(provided), crate::text::str_view(expected)),
{
    let token = match expected {
        Some(token) => token,
        None => {
            return false;
        },
    };
    if token.is_empty() {
        return false;
    }
    let given = match provided {
        Some(given) => given,
        None => "",
    };
    proof {
        reveal_strlit("");
        vstd::utf8::encode_utf8_decode_utf8(given@);
        vstd::utf8::encode_utf8_decode_utf8(token@);
        assert(provided is None ==> given@.len() == 0);
    }
    ct_eq(given.as_bytes(), token.as_bytes())
}

fn read_header(bytes: &[u8]) -> (text: Option<String>)
    ensures
        match text {
            Some(s) => header_text(bytes@) == Some(s@),
            None => header_text(bytes@) is None,
        },
{
    let mut text: String = String::new();
    let mut i: usize = 0;
    while i < bytes.len()
        invariant
            i <= bytes@.len(),
            forall|k: int| 0 <= k < i ==> is_visible(#[trigger] bytes@[k]),
            text@ == bytes@.take(i as int).map_values(|b: u8| b as char),
        decreases bytes@.len() - i,
    {
        let b: u8 = bytes[i];
        if !((32 <= b && b < 127) || b == 9) {
            return None;
        }
        text.push(b as char);
        assert(bytes@.take(i + 1) =~= bytes@.take(i as int).push(b));
        assert(bytes@.take(i + 1).map_values(|b: u8| b as char) =~= bytes@.take(
            i as int,
        ).map_values(|b: u8| b as char).push(b as char));
        i = i + 1;
    }
    assert(bytes@.take(bytes@.len() as int) =~= bytes@);
    Some(text)
}

fn strip_bearer(text: &str) -> (token: Option<String>)
    ensures
        match token {
            Some(s) => after_bearer(text@) == Some(s@),
            None => after_bearer(text@) is None,
        },
{
    let chars = crate::text::chars_of(text);
    let prefix = crate::text::chars_of("Bearer ");
    if chars.len() < prefix.len() {
        return None;
    }
    let mut i: usize = 0;
    while i < prefix.len()
        invariant
            i <= prefix@.len() <= chars@.len(),
            prefix@ == "Bearer "@,
            chars@ == text@,
            forall|k: int| 0 <= k < i ==> prefix@[k] == chars@[k],
        decreases prefix@.len() - i,
    {
        if chars[i] != prefix[i] {
            return None;
        }
        i = i + 1;
    }
    let len: usize = chars.len();
    assert(text@.subrange(i as int, len as int) =~= text@.skip(i as int));
    assert(prefix@ =~= text@.subrange(0, prefix@.len() as int));
    Some(crate::text::text_of(&chars, i, len))
}

/// The token that an authorization header presents.
pub fn presented_token(header: Option<&[u8]>) -> (token: Option<String>)
    ensures
        match token {
            Some(s) => presented(bytes_of(header)) == Some(s@),
            None => presented(bytes_of(header)) is None,
        },
{
    match header {
        Some(bytes) => match read_header(bytes) {
            Some(text) => strip_bearer(text.as_str()),
            None => None,
        },
        None => None,
    }
}

/// The view of an optional header value.
pub open spec fn bytes_of(header: Option<&[u8]>) -> Option<Seq<u8>> {
    match header {
        Some(bytes) => Some(bytes@),
        None => None,
    }
}

/// Lets a request pass whose authorization header presents the expected token, and turns
/// every other request away.
pub fn require_recipes_token(header: Option<&[u8]>, expected: Option<&str>) -> (passed: Result<
    (),
    Refusal,
>)
    ensures
        passed is Ok <==> admits(presented(bytes_of(header)), crate::text::str_view(expected)),
        passed matches Err(refusal) ==> refusal.status == 401 && refusal.text@ == "unauthorized"@,
{
    let token = presented_token(header);
    let provided = match &token {
        Some(s) => Some(s.as_str()),
        None => None,
    };
    if bearer_ok(provided, expected) {
        Ok(())
    } else {
        Err(Refusal { status: 401, text: "unauthorized".to_string() })
    }
}

/// Where no token is configured, or an empty one, no request passes.
pub proof fn guard_is_fail_closed(header: Option<Seq<u8>>, expected: Option<Seq<char>>)
    requires
        expected is None || expected->Some_0.len() == 0,
    ensures
        !admits(presented(header), expected),
{
}

/// A request without an authorization header never passes.
pub proof fn guard_needs_header(expected: Option<Seq<char>>)
    ensures
        !admits(presented(None), expected),
{
}

/// Where a token is configured, a request passes exactly where its header reads `Bearer`, a
/// space and the token.
pub proof fn guard_admits_exactly_the_token(bytes: Seq<u8>, token: Seq<char>)
    requires
        token.len() > 0,
    ensures
        admits(presented(Some(bytes)), Some(token)) <==> header_text(bytes) == Some(
            "Bearer "@ + token,
        ),
{
    let prefix = "Bearer "@;
    if let Some(text) = header_text(bytes) {
        if prefix.is_prefix_of(text) {
            assert(text =~= prefix + text.skip(prefix.len() as int));
        }
        if text == prefix + token {
            assert(prefix =~= text.subrange(0, prefix.len() as int));
            assert(text.skip(prefix.len() as int) =~= token);
        }
    }
}

} // verus!
