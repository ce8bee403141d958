//! Recipe names: what they are made of.

use crate::slug::{slug_from_lowercase, slugify_task};
use vstd::prelude::*;

verus! {

/// The characters that a name keeps are the ASCII letters and digits, by code point.
pub proof fn letters_and_digits_are_ascii(c: char)
    ensures
        crate::slug::is_alphanumeric(c) <==> {
            let code = c as int;
            ||| 48 <= code <= 57
            ||| 65 <= code <= 90
            ||| 97 <= code <= 122
        },
{
}

proof fn hyphenated_join(a: Seq<char>, b: Seq<char>)
    ensures
        ({
            let (x, y) = (crate::slug::hyphenated(a), crate::slug::hyphenated(b));
            crate::slug::hyphenated(a + b) == if x.len() > 0 && y.len() > 0 && x.last() == '-'
                && y[0] == '-' {
                x + y.drop_first()
            } else {
                x + y
            }
        }),
    decreases b.len(),
{
    let x = crate::slug::hyphenated(a);
    let y = crate::slug::hyphenated(b);
    if b.len() == 0 {
        assert(a + b =~= a);
        assert(x + y =~= x);
    } else {
        let shorter = b.drop_last();
        let z = crate::slug::hyphenated(shorter);
        hyphenated_join(a, shorter);
        assert((a + b).drop_last() =~= a + shorter);
        assert((a + b).last() == b.last());
        let before = crate::slug::hyphenated(a + shorter);
        let joined = x.len() > 0 && z.len() > 0 && x.last() == '-' && z[0] == '-';
        if z.len() > 0 {
            assert(y[0] == z[0]);
            if before.len() > 0 && (!joined || z.len() > 1) {
                assert(before.last() == z.last());
            }
            if joined {
                if z.len() == 1 {
                    assert(before =~= x);
                    assert(z.last() == '-');
                }
                assert(z.push(b.last()).drop_first() =~= z.drop_first().push(b.last()));
                assert(z.push('-').drop_first() =~= z.drop_first().push('-'));
                assert(x + z.drop_first().push(b.last()) =~= (x + z.drop_first()).push(b.last()));
                assert(x + z.drop_first().push('-') =~= (x + z.drop_first()).push('-'));
            } else {
                assert(x + z.push(b.last()) =~= (x + z).push(b.last()));
                assert(x + z.push('-') =~= (x + z).push('-'));
            }
        } else {
            assert(before =~= x);
            assert(z =~= Seq::<char>::empty());
            if crate::slug::is_alphanumeric(b.last()) {
                assert(y =~= seq![b.last()]);
                assert(x + y =~= x.push(b.last()));
            } else {
                assert(y =~= seq!['-']);
                assert(x + y =~= x.push('-'));
                assert(x + y.drop_first() =~= x);
            }
        }
    }
}

proof fn hyphenated_gap(gap: Seq<char>)
    requires
        forall|i: int|
            0 <= i < gap.len() ==> !crate::slug::is_alphanumeric(#[trigger] gap[i]),
    ensures
        gap.len() == 0 ==> crate::slug::hyphenated(gap) == Seq::<char>::empty(),
        gap.len() > 0 ==> crate::slug::hyphenated(gap) == seq!['-'],
    decreases gap.len(),
{
    if gap.len() > 0 {
        let shorter = gap.drop_last();
        assert forall|i: int| 0 <= i < shorter.len() implies !crate::slug::is_alphanumeric(
            #[trigger] shorter[i],
        ) by {
            assert(shorter[i] == gap[i]);
        }
        hyphenated_gap(shorter);
        assert(!crate::slug::is_alphanumeric(gap[gap.len() - 1]));
        if shorter.len() == 0 {
            assert(crate::slug::hyphenated(gap) =~= seq!['-']);
        }
    }
}

proof fn hyphenated_word(word: Seq<char>)
    requires
        forall|i: int|
            0 <= i < word.len() ==> crate::slug::is_alphanumeric(#[trigger] word[i]),
    ensures
        crate::slug::hyphenated(word) == word,
    decreases word.len(),
{
    if word.len() > 0 {
        let shorter = word.drop_last();
        assert forall|i: int| 0 <= i < shorter.len() implies crate::slug::is_alphanumeric(
            #[trigger] shorter[i],
        ) by {
            assert(shorter[i] == word[i]);
        }
        hyphenated_word(shorter);
        assert(crate::slug::is_alphanumeric(word[word.len() - 1]));
        assert(shorter.push(word.last()) =~= word);
    } else {
        assert(word =~= seq![]);
    }
}

proof fn hyphenated_keeps(text: Seq<char>, k: int) -> (at: int)
    requires
        0 <= k < text.len(),
        crate::slug::is_alphanumeric(text[k]),
    ensures
        0 <= at < crate::slug::hyphenated(text).len(),
        crate::slug::hyphenated(text)[at] == text[k],
    decreases text.len(),
{
    if k == text.len() - 1 {
        crate::slug::hyphenated(text).len() - 1
    } else {
        assert(text.drop_last()[k] == text[k]);
        hyphenated_keeps(text.drop_last(), k)
    }
}

proof fn core_in_hyphens(text: Seq<char>, k: int) -> (ends: (Seq<char>, Seq<char>))
    requires
        0 <= k < text.len(),
        crate::slug::is_alphanumeric(text[k]),
    ensures
        crate::slug::hyphenated(text) == ends.0 + crate::slug::slug_of(text) + ends.1,
        forall|i: int| 0 <= i < ends.0.len() ==> #[trigger] ends.0[i] == '-',
        forall|i: int| 0 <= i < ends.1.len() ==> #[trigger] ends.1[i] == '-',
        ends.0.len() <= 1,
        ends.1.len() <= 1,
        crate::slug::slug_of(text).len() > 0,
        crate::slug::slug_of(text)[0] != '-',
        crate::slug::slug_of(text).last() != '-',
{
    let drop = |c: char| crate::slug::is_hyphen(c);
    let all = crate::slug::hyphenated(text);
    let at = hyphenated_keeps(text, k);
    let (from, to) = crate::text::trimmed_keeps_middle(all, drop);
    assert(!drop(all[at]));
    assert(from <= at < to);
    let core = all.subrange(from, to);
    let left = all.take(from);
    let right = all.skip(to);
    assert(all =~= left + core + right);
    crate::slug::hyphens_stand_alone(text);
    if from > 1 {
        assert(drop(all[0]) && drop(all[1]));
    }
    if all.len() - to > 1 {
        assert(drop(all[to]) && drop(all[to + 1]));
    }
    assert forall|i: int| 0 <= i < left.len() implies #[trigger] left[i] == '-' by {
        assert(drop(all[i]));
    }
    assert forall|i: int| 0 <= i < right.len() implies #[trigger] right[i] == '-' by {
        assert(drop(all[to + i]));
    }
    (left, right)
}

proof fn core_is_slug(text: Seq<char>, left: Seq<char>, core: Seq<char>, right: Seq<char>)
    requires
        crate::slug::hyphenated(text) == left + core + right,
        forall|i: int| 0 <= i < left.len() ==> #[trigger] left[i] == '-',
        forall|i: int| 0 <= i < right.len() ==> #[trigger] right[i] == '-',
        core.len() > 0,
        core[0] != '-',
        core.last() != '-',
    ensures
        crate::slug::slug_of(text) == core,
{
    crate::text::trimmed_takes_padding(left, core, right, |c: char| crate::slug::is_hyphen(c));
}

/// A text without letters and digits leaves nothing to name a recipe by.
pub proof fn nameless_text_gets_the_stock_name(text: &str, name: String)
    requires
        call_ensures(slug_from_lowercase, (text,), name),
        forall|i: int|
            0 <= i < text@.len() ==> !crate::slug::is_alphanumeric(#[trigger] text@[i]),
    ensures
        name@ == "recorded-recipe"@,
{
    hyphenated_gap(text@);
    let drop = |c: char| crate::slug::is_hyphen(c);
    reveal_with_fuel(crate::text::trimmed_start, 2);
    let rest = crate::text::trimmed_start(crate::slug::hyphenated(text@), drop);
    assert(rest.len() == 0) by {
        if text@.len() > 0 {
            assert(seq!['-'].drop_first() =~= Seq::<char>::empty());
        }
    }
}

/// A word of letters and digits is its own name.
pub proof fn word_is_its_own_name(text: &str, name: String)
    requires
        call_ensures(slug_from_lowercase, (text,), name),
        text@.len() > 0,
        forall|i: int|
            0 <= i < text@.len() ==> crate::slug::is_alphanumeric(#[trigger] text@[i]),
    ensures
        name@ == text@,
{
    hyphenated_word(text@);
    let none = Seq::<char>::empty();
    assert(text@ =~= none + text@ + none);
    assert(crate::slug::is_alphanumeric(text@[text@.len() - 1]));
    core_is_slug(text@, none, text@, none);
}

/// What stands around the first and the last letter or digit leaves no trace in the name.
pub proof fn padding_leaves_no_trace(
    left: Seq<char>,
    core: &str,
    right: Seq<char>,
    text: &str,
    k: int,
    name: String,
    whole: String,
)
    requires
        text@ == left + core@ + right,
        0 <= k < core@.len(),
        crate::slug::is_alphanumeric(core@[k]),
        forall|i: int|
            0 <= i < left.len() ==> !crate::slug::is_alphanumeric(#[trigger] left[i]),
        forall|i: int|
            0 <= i < right.len() ==> !crate::slug::is_alphanumeric(#[trigger] right[i]),
        call_ensures(slug_from_lowercase, (core,), name),
        call_ensures(slug_from_lowercase, (text,), whole),
    ensures
        whole@ == name@,
{
    let (l, r) = core_in_hyphens(core@, k);
    let c = name@;
    hyphenated_gap(left);
    hyphenated_gap(right);
    hyphenated_join(left, core@);
    hyphenated_join(left + core@, right);
    let h = crate::slug::hyphenated(left + core@);
    let start = if l.len() > 0 || left.len() > 0 {
        seq!['-']
    } else {
        Seq::<char>::empty()
    };
    if l.len() > 0 {
        assert(l =~= seq!['-']);
        assert(crate::slug::hyphenated(core@)[0] == '-');
    } else {
        assert(crate::slug::hyphenated(core@)[0] == c[0]);
    }
    assert(h =~= start + c + r);
    let end = if r.len() > 0 || right.len() > 0 {
        seq!['-']
    } else {
        Seq::<char>::empty()
    };
    if r.len() > 0 {
        assert(r =~= seq!['-']);
        assert(h.last() == '-');
    } else {
        assert(h.last() == c.last());
    }
    assert(crate::slug::hyphenated(text@) =~= start + c + end);
    core_is_slug(text@, start, c, end);
}

/// What stands between two parts of a text that have letters or digits is one hyphen in the
/// name, with the names of the parts on either side.
pub proof fn gap_becomes_one_hyphen(
    first: &str,
    gap: Seq<char>,
    second: &str,
    text: &str,
    j: int,
    k: int,
    front: String,
    back: String,
    whole: String,
)
    requires
        text@ == first@ + gap + second@,
        0 <= j < first@.len(),
        crate::slug::is_alphanumeric(first@[j]),
        0 <= k < second@.len(),
        crate::slug::is_alphanumeric(second@[k]),
        gap.len() > 0,
        forall|i: int|
            0 <= i < gap.len() ==> !crate::slug::is_alphanumeric(#[trigger] gap[i]),
        call_ensures(slug_from_lowercase, (first,), front),
        call_ensures(slug_from_lowercase, (second,), back),
        call_ensures(slug_from_lowercase, (text,), whole),
    ensures
        whole@ == front@ + seq!['-'] + back@,
{
    let (l, r) = core_in_hyphens(first@, j);
    let (m, n) = core_in_hyphens(second@, k);
    let (a, b) = (front@, back@);
    hyphenated_gap(gap);
    hyphenated_join(first@, gap);
    hyphenated_join(first@ + gap, second@);
    let h = crate::slug::hyphenated(first@);
    if r.len() > 0 {
        assert(r =~= seq!['-']);
        assert(h.last() == '-');
    } else {
        assert(h.last() == a.last());
    }
    let g = crate::slug::hyphenated(first@ + gap);
    assert(g =~= l + a + seq!['-']);
    assert(g.last() == '-');
    let t = crate::slug::hyphenated(second@);
    if m.len() > 0 {
        assert(m =~= seq!['-']);
        assert(t[0] == '-');
    } else {
        assert(t[0] == b[0]);
    }
    let core = a + seq!['-'] + b;
    assert(crate::slug::hyphenated(text@) =~= l + core + n);
    assert(core[0] == a[0] && core.last() == b.last());
    core_is_slug(text@, l, core, n);
}

/// A task is named as its lower case is, which for an ASCII task is that of each character,
/// and the name is safe: small ASCII letters, digits and hyphens by code point, at least one,
/// no hyphen first or last and no two in a row.
pub proof fn task_gets_a_safe_name(
    task: &str,
    name: String,
    lower: &str,
    low: String,
    ascii: &str,
    plain: String,
    i: int,
)
    requires
        call_ensures(slugify_task, (task,), name),
        lower@ == crate::text::lowered(task@),
        call_ensures(slug_from_lowercase, (lower,), low),
        ascii@ == crate::text::ascii_lowered(task@),
        call_ensures(slug_from_lowercase, (ascii,), plain),
        0 <= i < name@.len(),
    ensures
        name@ == low@,
        (forall|k: int| 0 <= k < task@.len() ==> (#[trigger] task@[k] as int) < 128) ==> name@
            == plain@,
        97 <= name@[i] as int <= 122 || 48 <= name@[i] as int <= 57 || name@[i] as int == 45,
        name@[0] as int != 45,
        name@.last() as int != 45,
        i > 0 ==> !(name@[i - 1] as int == 45 && name@[i] as int == 45),
{
    assert(crate::slug::is_slug_char(name@[i]));
}

/// A task always gets a name.
pub proof fn task_gets_a_name(task: &str, name: String)
    requires
        call_ensures(slugify_task, (task,), name),
    ensures
        name@.len() > 0,
{
}

/// The name of a task does not depend on the case of its ASCII letters, and naming a name
/// changes nothing.
pub proof fn naming_ignores_case_and_is_done_once(
    task: &str,
    name: String,
    other: &str,
    same: String,
    word: &str,
    again: String,
)
    requires
        call_ensures(slugify_task, (task,), name),
        forall|k: int| 0 <= k < task@.len() ==> (#[trigger] task@[k] as int) < 128,
        forall|k: int| 0 <= k < other@.len() ==> (#[trigger] other@[k] as int) < 128,
        crate::text::ascii_lowered(task@) == crate::text::ascii_lowered(other@),
        call_ensures(slugify_task, (other,), same),
        word@ == name@,
        call_ensures(slugify_task, (word,), again),
    ensures
        same@ == name@,
        again@ == name@,
{
}

} // verus!
