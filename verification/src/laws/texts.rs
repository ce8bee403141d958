//! Texts: how they are taken apart, compared, ordered, trimmed, and how numbers are written
//! and read in decimal.

use crate::text::{at_most, chars_of, is_white_space, numeral, parse_u16, same_text, text_of, trim};
use vstd::prelude::*;

verus! {

/// A text is its characters, in order; a part of them is a text of its own; and two texts are
/// the same exactly where their characters are.
pub proof fn texts_are_their_characters(
    text: &str,
    chars: Vec<char>,
    from: usize,
    to: usize,
    part: String,
    other: &str,
    same: bool,
)
    requires
        call_ensures(chars_of, (text,), chars),
        from <= to <= chars@.len(),
        call_ensures(text_of, (&chars, from, to), part),
        call_ensures(same_text, (text, other), same),
    ensures
        chars@ == text@,
        part@.len() == to - from,
        forall|i: int| 0 <= i < to - from ==> #[trigger] part@[i] == text@[from + i],
        same <==> text@ == other@,
{
}

/// One text is at most another exactly where it is a start of it, or at the first place where
/// they differ its character has the lower code point.
pub proof fn texts_are_ordered_at_the_first_difference(a: &str, b: &str, le: bool, i: int)
    requires
        call_ensures(at_most, (a, b), le),
    ensures
        a@.is_prefix_of(b@) ==> le,
        0 <= i < a@.len() && i < b@.len() && a@.take(i) == b@.take(i) && a@[i] != b@[i] ==> (le
            <==> (a@[i] as int) < (b@[i] as int)),
        b@.is_prefix_of(a@) && a@ != b@ ==> !le,
{
    order_is_decided(a@, b@, i);
}

/// The same, of the order itself.
pub proof fn order_is_decided(a: Seq<char>, b: Seq<char>, i: int)
    ensures
        a.is_prefix_of(b) ==> crate::text::text_le(a, b),
        0 <= i < a.len() && i < b.len() && a.take(i) == b.take(i) && a[i] != b[i] ==> (
        crate::text::text_le(a, b) <==> (a[i] as int) < (b[i] as int)),
        b.is_prefix_of(a) && a != b ==> !crate::text::text_le(a, b),
    decreases a.len(),
{
    if a.len() > 0 && b.len() > 0 {
        let x = a.drop_first();
        let y = b.drop_first();
        order_is_decided(x, y, i - 1);
        if a.is_prefix_of(b) {
            assert(a[0] == b.subrange(0, a.len() as int)[0]);
            assert(x =~= b.subrange(0, a.len() as int).drop_first());
            assert(x =~= y.subrange(0, x.len() as int));
        }
        if b.is_prefix_of(a) && a != b {
            assert(b[0] == a.subrange(0, b.len() as int)[0]);
            assert(y =~= a.subrange(0, b.len() as int).drop_first());
            assert(y =~= x.subrange(0, y.len() as int));
            if x == y {
                assert(a =~= seq![a[0]] + x);
                assert(b =~= seq![b[0]] + y);
            }
        }
        if 0 < i && i < a.len() && i < b.len() && a.take(i) == b.take(i) {
            assert(a[0] == a.take(i)[0] && b[0] == b.take(i)[0]);
            assert(x.take(i - 1) =~= a.take(i).drop_first());
            assert(y.take(i - 1) =~= b.take(i).drop_first());
        }
    } else {
        if b.is_prefix_of(a) && a.len() == 0 {
            assert(a =~= b);
        }
    }
}

/// The white space is that of Unicode, by code point.
pub proof fn white_space_is_that_of_unicode(c: char, white: bool)
    requires
        call_ensures(is_white_space, (c,), white),
    ensures
        white <==> crate::text::white_space(c),
        white <==> {
            let code = c as int;
            ||| 9 <= code <= 13
            ||| code == 32
            ||| code == 133
            ||| code == 160
            ||| code == 5760
            ||| 8192 <= code <= 8202
            ||| code == 8232
            ||| code == 8233
            ||| code == 8239
            ||| code == 8287
            ||| code == 12288
        },
{
}

/// Trimming keeps a middle part of the text whole, and what it takes off on either side is all
/// the white space there and nothing else.
pub proof fn trimming_takes_off_white_space(text: &str, kept: String) -> (bounds: (int, int))
    requires
        call_ensures(trim, (text,), kept),
    ensures
        0 <= bounds.0 <= bounds.1 <= text@.len(),
        kept@ == text@.subrange(bounds.0, bounds.1),
        forall|i: int|
            0 <= i < bounds.0 || bounds.1 <= i < text@.len() ==> crate::text::white_space(
                #[trigger] text@[i],
            ),
        kept@.len() > 0 ==> !crate::text::white_space(kept@[0]) && !crate::text::white_space(
            kept@.last(),
        ),
{
    crate::text::trimmed_keeps_middle(text@, |c: char| crate::text::white_space(c))
}

/// A numeral is written digit by digit: a number below ten as its digit, any other as the
/// numeral of its tenth part and its last digit.
pub proof fn numerals_are_written_by_digits(n: u16, text: String, tenth: String)
    requires
        call_ensures(numeral, (n,), text),
        call_ensures(numeral, (n / 10,), tenth),
    ensures
        n < 10 ==> text@.len() == 1 && text@[0] as int == 48 + n,
        n >= 10 ==> text@.len() == tenth@.len() + 1 && text@.drop_last() == tenth@
            && text@.last() as int == 48 + n % 10,
{
    if n >= 10 {
        assert(text@.drop_last() =~= tenth@);
    }
}

/// A number is read digit by digit: a text of one character, or of a plus sign and one, reads
/// as that digit; any longer one reads as ten times what stands before its last digit, and
/// that digit, where this is at most 65535. Nothing else reads as a number.
pub proof fn numbers_are_read_by_digits(
    head: &str,
    last: char,
    text: &str,
    before: Option<u16>,
    number: Option<u16>,
)
    requires
        text@ == head@.push(last),
        call_ensures(parse_u16, (head,), before),
        call_ensures(parse_u16, (text,), number),
    ensures
        ({
            let alone = head@.len() == 0 || head@ == seq!['+'];
            let digit = last as int - 48;
            let sum = if alone {
                digit
            } else {
                before->Some_0 * 10 + digit
            };
            number == if 0 <= digit <= 9 && (alone || before is Some) && sum <= 65535 {
                Some(sum as u16)
            } else {
                None
            }
        }),
{
    let short = crate::text::without_plus(head@);
    let digits = crate::text::without_plus(text@);
    if head@.len() == 0 {
        assert(text@ =~= seq![last]);
        if last == '+' {
            assert(digits.len() == 0);
        } else {
            assert(digits.drop_last() =~= Seq::<char>::empty());
            assert(crate::text::denoted(Seq::<char>::empty()) == 0);
            assert(digits[0] == last);
        }
    } else {
        assert(text@[0] == head@[0]);
        assert(digits =~= short.push(last));
        assert(digits.drop_last() =~= short);
        assert(digits.last() == last);
        if head@ == seq!['+'] {
            assert(short.len() == 0);
            assert(crate::text::denoted(short) == 0);
            assert(digits[0] == last);
        } else if short.len() == 0 {
            assert(head@ =~= seq!['+']);
        } else {
            assert(crate::text::all_digits(digits) <==> crate::text::all_digits(short)
                && crate::text::is_digit(last)) by {
                if crate::text::all_digits(digits) {
                    assert forall|k: int| 0 <= k < short.len() implies crate::text::is_digit(
                        #[trigger] short[k],
                    ) by {
                        assert(short[k] == digits[k]);
                    }
                    assert(crate::text::is_digit(digits[short.len() as int]));
                }
            }
        }
    }
}

/// No text without a digit reads as a number: neither the empty one nor a sign alone.
pub proof fn empty_text_is_no_number(text: &str, number: Option<u16>)
    requires
        call_ensures(parse_u16, (text,), number),
        text@.len() == 0,
    ensures
        number is None,
{
}

/// Reading what was written gives the number back, with a plus sign before it or without.
pub proof fn reading_undoes_writing(
    n: u16,
    text: String,
    word: &str,
    signed: &str,
    number: Option<u16>,
    same: Option<u16>,
)
    requires
        call_ensures(numeral, (n,), text),
        word@ == text@,
        signed@ == seq!['+'] + text@,
        call_ensures(parse_u16, (word,), number),
        call_ensures(parse_u16, (signed,), same),
    ensures
        number == Some(n),
        same == Some(n),
{
    crate::text::numeral_round_trip(n);
    crate::text::decimal_reads_back(n as nat);
    assert(crate::text::is_digit(text@[0]));
    assert(crate::text::without_plus(signed@) =~= text@);
}

/// An ASCII text is lowered one for one: a capital to the small letter thirty-two code points
/// on, any other character to itself.
pub proof fn ascii_is_lowered_one_for_one(text: Seq<char>, i: int)
    requires
        0 <= i < text.len(),
    ensures
        crate::text::ascii_lowered(text).len() == text.len(),
        65 <= text[i] as int <= 90 ==> crate::text::ascii_lowered(text)[i] as int
            == text[i] as int + 32,
        !(65 <= text[i] as int <= 90) ==> crate::text::ascii_lowered(text)[i] == text[i],
        crate::text::is_ascii_text(text) ==> (text[i] as int) < 128,
        (forall|k: int| 0 <= k < text.len() ==> (#[trigger] text[k] as int) < 128)
            ==> crate::text::is_ascii_text(text),
{
}

} // verus!
