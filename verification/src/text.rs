//! Text as sequences of characters: building, comparing, ordering, trimming,
//! lower-casing, and decimal numerals.

use vstd::prelude::*;

verus! {

/// `String::push` appends one character and leaves what was there before it unchanged.
pub assume_specification[ std::string::String::push ](s: &mut std::string::String, c: char)
    ensures
        final(s)@ == old(s)@.push(c),
;

/// What an optional text says.
pub open spec fn string_view(text: Option<String>) -> Option<Seq<char>> {
    match text {
        Some(s) => Some(s@),
        None => None,
    }
}

/// What an optional borrowed text says.
pub open spec fn str_view(text: Option<&str>) -> Option<Seq<char>> {
    match text {
        Some(s) => Some(s@),
        None => None,
    }
}

/// The characters of `text`, in order.
pub fn chars_of(text: &str) -> (chars: Vec<char>)
    ensures
        chars@ == text@,
{
    let mut chars: Vec<char> = Vec::new();
    for c in it: text.chars()
        invariant
            it.seq() == text@,
            chars@ == text@.take(it.index() as int),
    {
        chars.push(c);
    }
    chars
}

/// The text made of `chars[from..to]`.
pub fn text_of(chars: &Vec<char>, from: usize, to: usize) -> (text: String)
    requires
        from <= to <= chars@.len(),
    ensures
        text@ == chars@.subrange(from as int, to as int),
{
    let mut text: String = String::new();
    let mut i: usize = from;
    while i < to
        invariant
            from <= i <= to <= chars@.len(),
            text@ == chars@.subrange(from as int, i as int),
        decreases to - i,
    {
        text.push(chars[i]);
        i = i + 1;
    }
    text
}

/// Whether two texts hold the same characters.
pub fn same_text(a: &str, b: &str) -> (same: bool)
    ensures
        same == (a@ == b@),
{
    let x = chars_of(a);
    let y = chars_of(b);
    if x.len() != y.len() {
        return false;
    }
    let mut i: usize = 0;
    while i < x.len()
        invariant
            x@ == a@,
            y@ == b@,
            x@.len() == y@.len(),
            i <= x@.len(),
            forall|k: int| 0 <= k < i ==> x@[k] == y@[k],
        decreases x@.len() - i,
    {
        if x[i] != y[i] {
            return false;
        }
        i = i + 1;
    }
    assert(a@ =~= b@);
    true
}

/// Lexicographic order by code point, the order of `str` in the standard library.
pub open spec fn text_le(a: Seq<char>, b: Seq<char>) -> bool
    decreases a.len(),
{
    if a.len() == 0 {
        true
    } else if b.len() == 0 {
        false
    } else if a[0] == b[0] {
        text_le(a.drop_first(), b.drop_first())
    } else {
        a[0] < b[0]
    }
}

/// Every text is at most itself.
pub proof fn text_le_reflexive(a: Seq<char>)
    ensures
        text_le(a, a),
    decreases a.len(),
{
    if a.len() > 0 {
        text_le_reflexive(a.drop_first());
    }
}

/// Any two texts are ordered.
pub proof fn text_le_total(a: Seq<char>, b: Seq<char>)
    ensures
        text_le(a, b) || text_le(b, a),
    decreases a.len(),
{
    if a.len() > 0 && b.len() > 0 && a[0] == b[0] {
        text_le_total(a.drop_first(), b.drop_first());
    }
}

/// Two texts that are each at most the other are the same text.
pub proof fn text_le_antisymmetric(a: Seq<char>, b: Seq<char>)
    requires
        text_le(a, b),
        text_le(b, a),
    ensures
        a == b,
    decreases a.len(),
{
    if a.len() > 0 {
        text_le_antisymmetric(a.drop_first(), b.drop_first());
        assert(a =~= seq![a[0]] + a.drop_first());
        assert(b =~= seq![b[0]] + b.drop_first());
    } else {
        assert(a =~= b);
    }
}

/// The order is transitive.
pub proof fn text_le_transitive(a: Seq<char>, b: Seq<char>, c: Seq<char>)
    requires
        text_le(a, b),
        text_le(b, c),
    ensures
        text_le(a, c),
    decreases a.len(),
{
    if a.len() > 0 && a[0] == b[0] && b[0] == c[0] {
        text_le_transitive(a.drop_first(), b.drop_first(), c.drop_first());
    }
}

/// Whether `a` comes before `b` or equals it.
pub fn at_most(a: &str, b: &str) -> (le: bool)
    ensures
        le == text_le(a@, b@),
{
    let x = chars_of(a);
    let y = chars_of(b);
    let mut i: usize = 0;
    assert(a@.skip(0) =~= a@);
    assert(b@.skip(0) =~= b@);
    while i < x.len()
        invariant
            x@ == a@,
            y@ == b@,
            i <= x@.len(),
            i <= y@.len(),
            text_le(a@, b@) == text_le(a@.skip(i as int), b@.skip(i as int)),
        decreases x@.len() - i,
    {
        if i >= y.len() {
            return false;
        }
        if x[i] != y[i] {
            return x[i] < y[i];
        }
        assert(a@.skip(i as int).drop_first() =~= a@.skip(i + 1));
        assert(b@.skip(i as int).drop_first() =~= b@.skip(i + 1));
        i = i + 1;
    }
    true
}

/// `text` without the characters at its start that `drop` picks.
pub open spec fn trimmed_start(text: Seq<char>, drop: spec_fn(char) -> bool) -> Seq<char>
    decreases text.len(),
{
    if text.len() > 0 && drop(text[0]) {
        trimmed_start(text.drop_first(), drop)
    } else {
        text
    }
}

/// `text` without the characters at its end that `drop` picks.
pub open spec fn trimmed_end(text: Seq<char>, drop: spec_fn(char) -> bool) -> Seq<char>
    decreases text.len(),
{
    if text.len() > 0 && drop(text.last()) {
        trimmed_end(text.drop_last(), drop)
    } else {
        text
    }
}

/// `text` without the characters at either end that `drop` picks.
pub open spec fn trimmed(text: Seq<char>, drop: spec_fn(char) -> bool) -> Seq<char> {
    trimmed_end(trimmed_start(text, drop), drop)
}

/// What trimming keeps is a middle part of the text that neither starts nor ends with a
/// dropped character.
pub proof fn trimmed_keeps_middle(text: Seq<char>, drop: spec_fn(char) -> bool) -> (bounds: (
    int,
    int,
))
    ensures
        0 <= bounds.0 <= bounds.1 <= text.len(),
        trimmed(text, drop) == text.subrange(bounds.0, bounds.1),
        bounds.0 < bounds.1 ==> !drop(text[bounds.0]) && !drop(text[bounds.1 - 1]),
        forall|i: int|
            0 <= i < bounds.0 || bounds.1 <= i < text.len() ==> drop(#[trigger] text[i]),
{
    let from = trimmed_start_skips(text, drop);
    let rest = text.skip(from);
    let to = trimmed_end_takes(rest, drop);
    assert(rest.take(to) =~= text.subrange(from, from + to));
    assert forall|i: int| 0 <= i < from || from + to <= i < text.len() implies drop(
        #[trigger] text[i],
    ) by {
        if from <= i {
            assert(text[i] == rest[i - from]);
        }
    }
    (from, from + to)
}

proof fn trimmed_start_skips(text: Seq<char>, drop: spec_fn(char) -> bool) -> (from: int)
    ensures
        0 <= from <= text.len(),
        trimmed_start(text, drop) == text.skip(from),
        from < text.len() ==> !drop(text[from]),
        forall|i: int| 0 <= i < from ==> drop(#[trigger] text[i]),
    decreases text.len(),
{
    if text.len() > 0 && drop(text[0]) {
        let from = trimmed_start_skips(text.drop_first(), drop);
        assert(text.drop_first().skip(from) =~= text.skip(from + 1));
        assert forall|i: int| 0 <= i < from + 1 implies drop(#[trigger] text[i]) by {
            if i > 0 {
                assert(text[i] == text.drop_first()[i - 1]);
            }
        }
        from + 1
    } else {
        assert(text.skip(0) =~= text);
        0
    }
}

proof fn trimmed_end_takes(text: Seq<char>, drop: spec_fn(char) -> bool) -> (to: int)
    ensures
        0 <= to <= text.len(),
        trimmed_end(text, drop) == text.take(to),
        0 < to ==> !drop(text[to - 1]),
        forall|i: int| to <= i < text.len() ==> drop(#[trigger] text[i]),
    decreases text.len(),
{
    if text.len() > 0 && drop(text.last()) {
        let to = trimmed_end_takes(text.drop_last(), drop);
        assert(text.drop_last().take(to) =~= text.take(to));
        assert forall|i: int| to <= i < text.len() implies drop(#[trigger] text[i]) by {
            if i < text.len() - 1 {
                assert(text[i] == text.drop_last()[i]);
            }
        }
        to
    } else {
        assert(text.take(text.len() as int) =~= text);
        text.len() as int
    }
}

/// Trimming takes off whatever dropped characters surround a text that neither starts nor
/// ends with one.
pub proof fn trimmed_takes_padding(
    left: Seq<char>,
    core: Seq<char>,
    right: Seq<char>,
    drop: spec_fn(char) -> bool,
)
    requires
        core.len() > 0,
        !drop(core[0]),
        !drop(core.last()),
        forall|i: int| 0 <= i < left.len() ==> drop(#[trigger] left[i]),
        forall|i: int| 0 <= i < right.len() ==> drop(#[trigger] right[i]),
    ensures
        trimmed(left + core + right, drop) == core,
    decreases left.len() + right.len(),
{
    let text = left + core + right;
    if left.len() > 0 {
        assert(text[0] == left[0]);
        assert(text.drop_first() =~= left.drop_first() + core + right);
        trimmed_takes_padding(left.drop_first(), core, right, drop);
    } else {
        assert(text =~= core + right);
        assert(text[0] == core[0]);
        assert(trimmed_start(text, drop) == text);
        if right.len() > 0 {
            assert(text.last() == right.last());
            assert(text.drop_last() =~= left + core + right.drop_last());
            assert(text.drop_last()[0] == core[0]);
            trimmed_takes_padding(left, core, right.drop_last(), drop);
        } else {
            assert(text =~= core);
        }
    }
}

/// Takes off both ends of `chars` what `picks` picks; `drop` is what `picks` computes.
pub fn trim_chars<F: Fn(char) -> bool>(
    chars: &Vec<char>,
    picks: F,
    Ghost(drop): Ghost<spec_fn(char) -> bool>,
) -> (text: String)
    requires
        forall|c: char| picks.requires((c,)),
        forall|c: char, b: bool| picks.ensures((c,), b) ==> b == drop(c),
    ensures
        text@ == trimmed(chars@, drop),
{
    let mut from: usize = 0;
    assert(chars@.skip(0) =~= chars@);
    while from < chars.len() && picks(chars[from])
        invariant
            from <= chars@.len(),
            forall|c: char| picks.requires((c,)),
            forall|c: char, b: bool| picks.ensures((c,), b) ==> b == drop(c),
            trimmed_start(chars@, drop) == trimmed_start(chars@.skip(from as int), drop),
        decreases chars@.len() - from,
    {
        assert(chars@.skip(from as int).drop_first() =~= chars@.skip(from + 1));
        from = from + 1;
    }
    let mut to: usize = chars.len();
    let ghost kept = chars@.skip(from as int);
    assert(trimmed_start(chars@, drop) == kept);
    assert(chars@.subrange(from as int, to as int) =~= kept);
    while from < to && picks(chars[to - 1])
        invariant
            from <= to <= chars@.len(),
            forall|c: char| picks.requires((c,)),
            forall|c: char, b: bool| picks.ensures((c,), b) ==> b == drop(c),
            trimmed_end(kept, drop) == trimmed_end(
                chars@.subrange(from as int, to as int),
                drop,
            ),
        decreases to,
    {
        assert(chars@.subrange(from as int, to as int).drop_last() =~= chars@.subrange(
            from as int,
            to - 1,
        ));
        to = to - 1;
    }
    text_of(chars, from, to)
}

/// The characters with the Unicode property `White_Space`.
pub open spec fn white_space(c: char) -> bool {
    ||| '\u{9}' <= c <= '\u{d}'
    ||| c == ' '
    ||| c == '\u{85}'
    ||| c == '\u{a0}'
    ||| c == '\u{1680}'
    ||| '\u{2000}' <= c <= '\u{200a}'
    ||| c == '\u{2028}'
    ||| c == '\u{2029}'
    ||| c == '\u{202f}'
    ||| c == '\u{205f}'
    ||| c == '\u{3000}'
}

/// Whether `c` is white space.
pub fn is_white_space(c: char) -> (white: bool)
    ensures
        white == white_space(c),
{
    ('\u{9}' <= c && c <= '\u{d}') || c == ' ' || c == '\u{85}' || c == '\u{a0}' || c == '\u{1680}'
        || ('\u{2000}' <= c && c <= '\u{200a}') || c == '\u{2028}' || c == '\u{2029}' || c
        == '\u{202f}' || c == '\u{205f}' || c == '\u{3000}'
}

/// `text` without white space at its ends.
pub open spec fn trimmed_text(text: Seq<char>) -> Seq<char> {
    trimmed(text, |c: char| white_space(c))
}

/// Takes white space off both ends.
pub fn trim(text: &str) -> (kept: String)
    ensures
        kept@ == trimmed_text(text@),
{
    let chars = chars_of(text);
    trim_chars(&chars, is_white_space, Ghost(|c: char| white_space(c)))
}

/// The decimal digit for `d`, which is below ten.
pub open spec fn digit(d: nat) -> char {
    ('0' as nat + d) as char
}

/// Whether `c` is an ASCII digit.
pub open spec fn is_digit(c: char) -> bool {
    '0' <= c <= '9'
}

/// The decimal numeral of `n`, without leading zeros.
pub open spec fn decimal(n: nat) -> Seq<char>
    decreases n,
{
    if n < 10 {
        seq![digit(n)]
    } else {
        decimal(n / 10).push(digit(n % 10))
    }
}

/// The number that a run of decimal digits denotes.
pub open spec fn denoted(digits: Seq<char>) -> nat
    decreases digits.len(),
{
    if digits.len() == 0 {
        0
    } else {
        denoted(digits.drop_last()) * 10 + (digits.last() as nat - '0' as nat) as nat
    }
}

/// Writes `n` in decimal.
pub fn numeral(n: u16) -> (text: String)
    ensures
        text@ == decimal(n as nat),
    decreases n,
{
    if n < 10 {
        let mut text: String = String::new();
        text.push((48u8 + n as u8) as char);
        text
    } else {
        let mut text: String = numeral(n / 10);
        text.push((48u8 + (n % 10) as u8) as char);
        text
    }
}

/// Whether every character is an ASCII digit.
pub open spec fn all_digits(text: Seq<char>) -> bool {
    forall|i: int| 0 <= i < text.len() ==> is_digit(#[trigger] text[i])
}

/// `text` without a plus sign at its start.
pub open spec fn without_plus(text: Seq<char>) -> Seq<char> {
    if text.len() > 0 && text[0] == '+' {
        text.drop_first()
    } else {
        text
    }
}

/// What an unsigned sixteen-bit number reads from `text`: an optional plus sign, then
/// at least one digit, and nothing too large.
pub open spec fn read_u16(text: Seq<char>) -> Option<u16> {
    let digits = without_plus(text);
    if digits.len() > 0 && all_digits(digits) && denoted(digits) <= u16::MAX {
        Some(denoted(digits) as u16)
    } else {
        None
    }
}

proof fn denoted_grows(digits: Seq<char>, i: int)
    requires
        0 <= i <= digits.len(),
    ensures
        denoted(digits.take(i)) <= denoted(digits),
    decreases digits.len() - i,
{
    if i < digits.len() {
        denoted_grows(digits, i + 1);
        assert(digits.take(i + 1).drop_last() =~= digits.take(i));
    } else {
        assert(digits.take(i) =~= digits);
    }
}

/// Reads an unsigned sixteen-bit number.
pub fn parse_u16(text: &str) -> (n: Option<u16>)
    ensures
        n == read_u16(text@),
{
    let chars = chars_of(text);
    let start: usize = if chars.len() > 0 && chars[0] == '+' {
        1
    } else {
        0
    };
    let ghost digits = without_plus(text@);
    assert(chars@.skip(0) =~= chars@);
    assert(start == 1 ==> chars@.skip(1) =~= chars@.drop_first());
    if start == chars.len() {
        return None;
    }
    let mut sum: u32 = 0;
    let mut i: usize = start;
    while i < chars.len()
        invariant
            start <= i <= chars@.len(),
            start <= 1,
            digits == chars@.skip(start as int),
            digits == without_plus(text@),
            sum == denoted(digits.take(i - start)),
            sum <= u16::MAX,
            forall|k: int| 0 <= k < i - start ==> is_digit(#[trigger] digits[k]),
        decreases chars@.len() - i,
    {
        let c = chars[i];
        assert(c == digits[i - start]);
        if c < '0' || '9' < c {
            return None;
        }
        assert(digits.take(i - start + 1).drop_last() =~= digits.take(i - start));
        sum = sum * 10 + (c as u32 - '0' as u32);
        proof {
            denoted_grows(digits, i - start + 1);
        }
        if sum > 65535 {
            return None;
        }
        i = i + 1;
    }
    assert(digits.take(digits.len() as int) =~= digits);
    Some(sum as u16)
}

/// A numeral is a run of digits that denotes its number.
pub proof fn decimal_reads_back(n: nat)
    ensures
        decimal(n).len() > 0,
        all_digits(decimal(n)),
        denoted(decimal(n)) == n,
    decreases n,
{
    if n < 10 {
        assert(seq![digit(n)].drop_last() =~= Seq::<char>::empty());
        assert(denoted(Seq::<char>::empty()) == 0);
    } else {
        decimal_reads_back(n / 10);
        assert(decimal(n).drop_last() =~= decimal(n / 10));
    }
}

/// Reading the numeral of a number gives the number back.
pub proof fn numeral_round_trip(n: u16)
    ensures
        read_u16(decimal(n as nat)) == Some(n),
{
    decimal_reads_back(n as nat);
    assert(is_digit(decimal(n as nat)[0]));
}

/// What `str::to_lowercase` makes of a text.
pub uninterp spec fn lowered(text: Seq<char>) -> Seq<char>;

/// Whether `c` is an ASCII capital letter.
pub open spec fn is_capital(c: char) -> bool {
    'A' <= c <= 'Z'
}

/// The lower case of an ASCII character.
pub open spec fn ascii_lower(c: char) -> char {
    if is_capital(c) {
        (c as nat + 32) as char
    } else {
        c
    }
}

/// The lower case of an ASCII text.
pub open spec fn ascii_lowered(text: Seq<char>) -> Seq<char> {
    text.map_values(|c: char| ascii_lower(c))
}

/// Whether every character is ASCII.
pub open spec fn is_ascii_text(text: Seq<char>) -> bool {
    forall|i: int| 0 <= i < text.len() ==> #[trigger] text[i] <= '\u{7f}'
}

/// `str::to_lowercase`: the lower-case equivalent of `text`, a function of `text` alone.
/// No ASCII capital is left in it, and an ASCII text is lowered character by character.
/// What becomes of other characters follows Unicode's case mapping and is not spelled out.
#[verifier::external_body]
pub(crate) fn to_lowercase(text: &str) -> (lower: String)
    ensures
        lower@ == lowered(text@),
        forall|i: int| 0 <= i < lower@.len() ==> !is_capital(#[trigger] lower@[i]),
        is_ascii_text(text@) ==> lower@ == ascii_lowered(text@),
{
    text.to_lowercase()
}

} // verus!
