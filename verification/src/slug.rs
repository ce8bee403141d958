//! Recipe names made from task descriptions.

use crate::text::{chars_of, to_lowercase, trim_chars};
use vstd::prelude::*;

verus! {

/// The name of a recipe whose task leaves nothing to name it by.
pub open spec fn fallback_name() -> Seq<char> {
    "recorded-recipe"@
}

/// Whether `c` is an ASCII letter or digit.
pub open spec fn is_alphanumeric(c: char) -> bool {
    ||| 'a' <= c <= 'z'
    ||| 'A' <= c <= 'Z'
    ||| '0' <= c <= '9'
}

/// Whether `c` is a hyphen.
pub open spec fn is_hyphen(c: char) -> bool {
    c == '-'
}

/// `text` with each run of characters that are neither letters nor digits made one hyphen.
pub open spec fn hyphenated(text: Seq<char>) -> Seq<char>
    decreases text.len(),
{
    if text.len() == 0 {
        seq![]
    } else {
        let done = hyphenated(text.drop_last());
        if is_alphanumeric(text.last()) {
            done.push(text.last())
        } else if done.len() > 0 && is_hyphen(done.last()) {
            done
        } else {
            done.push('-')
        }
    }
}

/// The recipe name made from a lower-cased task description.
pub open spec fn slug_of(lower: Seq<char>) -> Seq<char> {
    let core = crate::text::trimmed(hyphenated(lower), |c: char| is_hyphen(c));
    if core.len() == 0 {
        fallback_name()
    } else {
        core
    }
}

/// Whether `name` is a safe recipe name: lower-case ASCII letters, digits and single
/// hyphens, with no hyphen at either end, and not empty.
pub open spec fn is_slug(name: Seq<char>) -> bool {
    &&& name.len() > 0
    &&& forall|i: int| 0 <= i < name.len() ==> is_slug_char(#[trigger] name[i])
    &&& !is_hyphen(name[0])
    &&& !is_hyphen(name.last())
    &&& no_double_hyphen(name)
}

/// A character of a safe recipe name.
pub open spec fn is_slug_char(c: char) -> bool {
    ||| 'a' <= c <= 'z'
    ||| '0' <= c <= '9'
    ||| c == '-'
}

/// Whether no two neighbouring characters are both hyphens.
pub open spec fn no_double_hyphen(name: Seq<char>) -> bool {
    forall|i: int, j: int|
        0 <= i && j == i + 1 && j < name.len() ==> !(is_hyphen(#[trigger] name[i]) && is_hyphen(
            #[trigger] name[j],
        ))
}

fn hyphen(c: char) -> (b: bool)
    ensures
        b == is_hyphen(c),
{
    c == '-'
}

/// Makes a recipe name from a lower-cased task description.
pub fn slug_from_lowercase(lower: &str) -> (name: String)
    ensures
        name@ == slug_of(lower@),
{
    let chars = chars_of(lower);
    let mut slug: Vec<char> = Vec::new();
    let mut prev_dash: bool = false;
    let mut i: usize = 0;
    while i < chars.len()
        invariant
            i <= chars@.len(),
            chars@ == lower@,
            slug@ == hyphenated(lower@.take(i as int)),
            prev_dash == (slug@.len() > 0 && is_hyphen(slug@.last())),
        decreases chars@.len() - i,
    {
        assert(lower@.take(i + 1).drop_last() =~= lower@.take(i as int));
        let ch = chars[i];
        if ('a' <= ch && ch <= 'z') || ('A' <= ch && ch <= 'Z') || ('0' <= ch && ch <= '9') {
            slug.push(ch);
            prev_dash = false;
        } else if !prev_dash {
            slug.push('-');
            prev_dash = true;
        }
        i = i + 1;
    }
    assert(lower@.take(lower@.len() as int) =~= lower@);
    let trimmed = trim_chars(&slug, hyphen, Ghost(|c: char| is_hyphen(c)));
    if trimmed.as_str().is_empty() {
        "recorded-recipe".to_string()
    } else {
        trimmed
    }
}

proof fn hyphenated_shape(text: Seq<char>)
    ensures
        no_double_hyphen(hyphenated(text)),
        forall|i: int|
            0 <= i < hyphenated(text).len() ==> is_alphanumeric(#[trigger] hyphenated(text)[i])
                || is_hyphen(hyphenated(text)[i]),
        hyphenated(text).len() <= text.len(),
        (forall|i: int| 0 <= i < text.len() ==> !crate::text::is_capital(#[trigger] text[i]))
            ==> forall|i: int|
            0 <= i < hyphenated(text).len() ==> is_slug_char(#[trigger] hyphenated(text)[i]),
    decreases text.len(),
{
    if text.len() > 0 {
        hyphenated_shape(text.drop_last());
        assert(forall|i: int|
            0 <= i < text.len() - 1 ==> text.drop_last()[i] == #[trigger] text[i]);
    }
}

/// No two hyphens stand next to each other in a hyphenated text.
pub proof fn hyphens_stand_alone(text: Seq<char>)
    ensures
        no_double_hyphen(hyphenated(text)),
{
    hyphenated_shape(text);
}

proof fn hyphenated_keeps_slug(text: Seq<char>)
    requires
        forall|i: int| 0 <= i < text.len() ==> is_slug_char(#[trigger] text[i]),
        no_double_hyphen(text),
    ensures
        hyphenated(text) == text,
    decreases text.len(),
{
    if text.len() > 0 {
        let shorter = text.drop_last();
        assert(forall|i: int| 0 <= i < shorter.len() ==> shorter[i] == #[trigger] text[i]);
        hyphenated_keeps_slug(shorter);
        if shorter.len() > 0 {
            assert(shorter.last() == text[text.len() - 2]);
            assert(text.last() == text[text.len() - 1]);
        }
        assert(shorter.push(text.last()) =~= text);
    } else {
        assert(text =~= seq![]);
    }
}

/// The name made from any text without ASCII capitals is a safe recipe name.
pub proof fn slug_is_safe(lower: Seq<char>)
    requires
        forall|i: int| 0 <= i < lower.len() ==> !crate::text::is_capital(#[trigger] lower[i]),
    ensures
        is_slug(slug_of(lower)),
{
    let drop = |c: char| is_hyphen(c);
    let raw = hyphenated(lower);
    hyphenated_shape(lower);
    let (from, to) = crate::text::trimmed_keeps_middle(raw, drop);
    let core = raw.subrange(from, to);
    if core.len() == 0 {
        reveal_strlit("recorded-recipe");
    } else {
        assert(core[0] == raw[from]);
        assert(core.last() == raw[to - 1]);
        assert forall|i: int, j: int| 0 <= i && j == i + 1 && j < core.len() implies !(is_hyphen(
            #[trigger] core[i],
        ) && is_hyphen(#[trigger] core[j])) by {
            assert(core[i] == raw[from + i]);
            assert(core[j] == raw[from + j]);
        }
    }
}

/// A safe recipe name is the name made from itself.
pub proof fn slug_keeps_safe_name(name: Seq<char>)
    requires
        is_slug(name),
    ensures
        slug_of(name) == name,
{
    hyphenated_keeps_slug(name);
    reveal_with_fuel(crate::text::trimmed_start, 2);
    reveal_with_fuel(crate::text::trimmed_end, 2);
}

/// Makes a safe recipe name from a task description: lower case, each run of other
/// characters than letters and digits one hyphen, none at the ends. An ASCII task is lowered
/// character by character, and a task that already is a safe name is its own name.
pub fn slugify_task(task: &str) -> (name: String)
    ensures
        name@ == slug_of(crate::text::lowered(task@)),
        crate::text::is_ascii_text(task@) ==> name@ == slug_of(crate::text::ascii_lowered(task@)),
        is_slug(name@),
        is_slug(task@) ==> name@ == task@,
{
    let lower = to_lowercase(task);
    proof {
        slug_is_safe(lower@);
        if is_slug(task@) {
            assert(lower@ =~= task@);
            slug_keeps_safe_name(task@);
        }
    }
    slug_from_lowercase(lower.as_str())
}

} // verus!
