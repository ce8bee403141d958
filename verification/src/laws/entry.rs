//! Who is let in.

use crate::guard::{bearer_ok, ct_eq, presented_token, require_recipes_token, Refusal};
use vstd::prelude::*;

verus! {

/// A token opens the surface exactly where one is expected that is not empty, and the one
/// presented is the same, character for character.
pub proof fn only_the_expected_token_opens(
    provided: Option<&str>,
    expected: Option<&str>,
    ok: bool,
)
    requires
        call_ensures(bearer_ok, (provided, expected), ok),
    ensures
        ok <==> {
            &&& expected is Some
            &&& expected->Some_0@.len() > 0
            &&& provided is Some
            &&& provided->Some_0@ == expected->Some_0@
        },
{
}

/// Bytes compare equal exactly where there are as many of them and each is the same.
pub proof fn bytes_compare_one_by_one(a: &[u8], b: &[u8], equal: bool)
    requires
        call_ensures(ct_eq, (a, b), equal),
    ensures
        equal <==> a@.len() == b@.len() && forall|i: int|
            0 <= i < a@.len() ==> #[trigger] a@[i] == b@[i],
{
    if a@.len() == b@.len() && forall|i: int| 0 <= i < a@.len() ==> #[trigger] a@[i] == b@[i] {
        assert(a@ =~= b@);
    }
}

/// A header presents a token exactly where it is nothing but visible ASCII, spaces and tabs
/// and starts with the word `Bearer` and one space; the token is all that follows.
pub proof fn token_follows_the_bearer_word(
    header: &[u8],
    token: Option<String>,
    none: Option<String>,
)
    requires
        call_ensures(presented_token, (Some(header),), token),
        call_ensures(presented_token, (None::<&[u8]>,), none),
    ensures
        none is None,
        token is Some <==> {
            &&& header@.len() >= 7
            &&& header@.take(7) == seq![66u8, 101u8, 97u8, 114u8, 101u8, 114u8, 32u8]
            &&& forall|i: int|
                0 <= i < header@.len() ==> 32 <= #[trigger] header@[i] <= 126 || header@[i] == 9
        },
        token is Some ==> {
            &&& token->Some_0@.len() == header@.len() - 7
            &&& forall|i: int|
                0 <= i < header@.len() - 7 ==> #[trigger] token->Some_0@[i] == header@[i
                    + 7] as char
        },
{
    reveal_strlit("Bearer ");
    let visible = forall|i: int|
        0 <= i < header@.len() ==> 32 <= #[trigger] header@[i] <= 126 || header@[i] == 9;
    let word = seq![66u8, 101u8, 97u8, 114u8, 101u8, 114u8, 32u8];
    if crate::guard::header_text(header@) is Some {
        assert forall|i: int| 0 <= i < header@.len() implies 32 <= #[trigger] header@[i] <= 126
            || header@[i] == 9 by {
            assert(crate::guard::is_visible(header@[i]));
        }
    }
    assert(crate::guard::header_text(header@) is Some <==> visible);
    if visible {
        let text = crate::guard::header_text(header@)->Some_0;
        let prefix = "Bearer "@;
        assert(prefix.len() == 7);
        assert(prefix =~= seq!['B', 'e', 'a', 'r', 'e', 'r', ' ']);
        if header@.len() >= 7 && header@.take(7) == word {
            assert forall|i: int| 0 <= i < 7 implies text[i] == #[trigger] prefix[i] by {
                assert(header@[i] == header@.take(7)[i]);
                assert(header@.take(7)[i] == word[i]);
            }
            assert(prefix =~= text.subrange(0, 7));
        }
        if prefix.is_prefix_of(text) {
            assert(text.len() >= 7);
            assert forall|i: int| 0 <= i < 7 implies header@.take(7)[i] == #[trigger] word[i] by {
                assert(text[i] == header@[i] as char);
                assert(text.subrange(0, 7)[i] == text[i]);
                assert(prefix[i] == text[i]);
            }
            assert(header@.take(7) =~= word);
        }
    }
}

/// A request passes exactly where a token is configured that is not empty, and the header
/// reads `Bearer`, one space, and that token in visible ASCII, spaces and tabs. Every other
/// request is refused with status 401 and one word.
pub proof fn request_passes_with_the_token(
    header: Option<&[u8]>,
    expected: Option<&str>,
    passed: Result<(), Refusal>,
    token: Option<String>,
)
    requires
        call_ensures(require_recipes_token, (header, expected), passed),
        call_ensures(presented_token, (header,), token),
    ensures
        passed is Ok <==> {
            &&& expected is Some
            &&& expected->Some_0@.len() > 0
            &&& token is Some
            &&& token->Some_0@ == expected->Some_0@
        },
        passed is Err ==> passed->Err_0.status == 401 && passed->Err_0.text@ == "unauthorized"@,
{
}

} // verus!
