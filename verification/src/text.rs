//! Text as sequences of characters: numbers, white space, splitting and UTF-16.
use vstd::prelude::*;

verus! {

/// Appends one character, by `String::push`: the text then ends with that character and is
/// otherwise what it was.
#[verifier::external_body]
pub(crate) fn push_char(text: &mut String, c: char)
    ensures
        final(text)@ == old(text)@.push(c),
{
    text.push(c)
}

/// The character with a given code, by `char::from_u32`: there is one for every code up to
/// `0x10FFFF` that is not a surrogate, and none for other numbers.
#[verifier::external_body]
pub(crate) fn char_from_code(code: u32) -> (r: Option<char>)
    ensures
        r is Some <==> (code <= 0xD7FF || 0xE000 <= code <= 0x10FFFF),
        r matches Some(c) ==> c == code as char,
{
    char::from_u32(code)
}

/// The characters of a text, in order.
pub fn chars_of(text: &str) -> (r: Vec<char>)
    ensures
        r@ == text@,
{
    let mut out: Vec<char> = Vec::new();
    for c in it: text.chars()
        invariant
            out@ == it.seq().take(it.index()),
            it.seq() == text@,
    {
        out.push(c);
    }
    out
}

/// The text made of the characters from `from` up to `to`.
pub fn text_of(chars: &Vec<char>, from: usize, to: usize) -> (r: String)
    requires
        from <= to <= chars@.len(),
    ensures
        r@ == chars@.subrange(from as int, to as int),
{
    let mut out = String::new();
    let mut i: usize = from;
    while i < to
        invariant
            from <= i <= to <= chars@.len(),
            out@ == chars@.subrange(from as int, i as int),
        decreases to - i,
    {
        push_char(&mut out, chars[i]);
        i += 1;
        assert(chars@.subrange(from as int, i as int) =~= chars@.subrange(
            from as int,
            i - 1,
        ).push(chars@[i - 1]));
    }
    out
}

/// Whether two texts hold the same characters.
pub fn text_eq(a: &str, b: &str) -> (r: bool)
    ensures
        r == (a@ == b@),
{
    a.to_owned() == b.to_owned()
}

// ---------------------------------------------------------------------------------------------
// Numbers
// ---------------------------------------------------------------------------------------------

/// The character of a decimal digit.
pub open spec fn digit_char(digit: nat) -> char {
    (48 + digit) as char
}

/// A number in decimal, without leading zeros.
pub open spec fn decimal(value: nat) -> Seq<char>
    decreases value,
{
    if value < 10 {
        seq![digit_char(value)]
    } else {
        decimal(value / 10).push(digit_char(value % 10))
    }
}

/// A signed number in decimal.
pub open spec fn signed_decimal(value: int) -> Seq<char> {
    if value < 0 {
        seq!['-'] + decimal((-value) as nat)
    } else {
        decimal(value as nat)
    }
}

/// A number in decimal, filled up with leading zeros to at least `width` characters.
pub open spec fn padded_decimal(value: nat, width: nat) -> Seq<char> {
    if decimal(value).len() < width {
        Seq::new((width - decimal(value).len()) as nat, |i: int| '0') + decimal(value)
    } else {
        decimal(value)
    }
}

/// A text of decimal digits says what its digits are worth, each ten times the one behind it.
pub open spec fn decimal_value(text: Seq<char>) -> int
    decreases text.len(),
{
    if text.len() == 0 {
        0
    } else {
        10 * decimal_value(text.drop_last()) + (text.last() as int - '0' as int)
    }
}

/// A number written in decimal is made of digits, has no zero in front, and is read back.
pub proof fn law_decimal_is_read_back(value: nat)
    ensures
        decimal(value).len() > 0,
        forall|i: int| 0 <= i < decimal(value).len() ==> '0' <= #[trigger] decimal(value)[i] <= '9',
        decimal(value)[0] == '0' ==> value == 0 && decimal(value).len() == 1,
        decimal_value(decimal(value)) == value,
    decreases value,
{
    let text = decimal(value);
    if value < 10 {
        assert(text.drop_last() =~= Seq::empty());
        assert(decimal_value(text.drop_last()) == 0);
    } else {
        law_decimal_is_read_back(value / 10);
        assert(text.drop_last() =~= decimal(value / 10));
        assert(text[0] == decimal(value / 10)[0]);
    }
}

/// A number that is filled up with zeros has at least the width asked for, and no more zeros than
/// that takes.
pub proof fn law_padding_fills_up(value: nat, width: nat)
    ensures
        padded_decimal(value, width).len() >= width,
        padded_decimal(value, width).len() == width || padded_decimal(value, width) == decimal(
            value,
        ),
        decimal_value(padded_decimal(value, width)) == value,
        forall|i: int|
            0 <= i < padded_decimal(value, width).len() ==> '0' <= #[trigger] padded_decimal(
                value,
                width,
            )[i] <= '9',
{
    law_decimal_is_read_back(value);
    if decimal(value).len() < width {
        lemma_leading_zeros((width - decimal(value).len()) as nat, decimal(value));
    }
}

proof fn lemma_leading_zeros(count: nat, text: Seq<char>)
    ensures
        decimal_value(Seq::new(count, |i: int| '0') + text) == decimal_value(text),
    decreases count, text.len(),
{
    let zeros = Seq::new(count, |i: int| '0');
    if text.len() > 0 {
        lemma_leading_zeros(count, text.drop_last());
        assert((zeros + text).drop_last() =~= zeros + text.drop_last());
    } else if count > 0 {
        let fewer = Seq::new((count - 1) as nat, |i: int| '0');
        lemma_leading_zeros((count - 1) as nat, text);
        assert((zeros + text).drop_last() =~= fewer + text);
    } else {
        assert(zeros + text =~= text);
    }
}

fn digit_of(digit: u8) -> (r: char)
    requires
        digit < 10,
    ensures
        r == digit_char(digit as nat),
{
    (48 + digit) as char
}

/// Writes a number in decimal.
pub fn decimal_u64(value: u64) -> (r: String)
    ensures
        r@ == decimal(value as nat),
    decreases value,
{
    if value < 10 {
        let mut out = String::new();
        push_char(&mut out, digit_of(value as u8));
        assert(out@ =~= decimal(value as nat));
        out
    } else {
        let mut out = decimal_u64(value / 10);
        push_char(&mut out, digit_of((value % 10) as u8));
        out
    }
}

/// Writes a large number in decimal.
pub fn decimal_u128(value: u128) -> (r: String)
    ensures
        r@ == decimal(value as nat),
    decreases value,
{
    if value <= u64::MAX as u128 {
        decimal_u64(value as u64)
    } else {
        let mut out = decimal_u128(value / 10);
        push_char(&mut out, digit_of((value % 10) as u8));
        out
    }
}

/// A number in decimal has at most one character for each power of ten that it reaches.
pub proof fn lemma_decimal_len(value: nat, digits: nat)
    requires
        value < vstd::arithmetic::power::pow(10, digits),
        digits > 0,
    ensures
        1 <= decimal(value).len() <= digits,
    decreases digits,
{
    if value >= 10 {
        reveal(vstd::arithmetic::power::pow);
        assert(digits > 1) by {
            if digits == 1 {
                assert(vstd::arithmetic::power::pow(10, 1) == 10 * vstd::arithmetic::power::pow(
                    10,
                    0,
                ));
            }
        }
        assert(vstd::arithmetic::power::pow(10, digits) == 10 * vstd::arithmetic::power::pow(
            10,
            (digits - 1) as nat,
        ));
        lemma_decimal_len(value / 10, (digits - 1) as nat);
    }
}

/// Writes a signed number in decimal.
pub fn decimal_i64(value: i64) -> (r: String)
    ensures
        r@ == signed_decimal(value as int),
{
    if value < 0 {
        let magnitude: u64 = (-(value + 1)) as u64 + 1;
        let mut out = String::new();
        push_char(&mut out, '-');
        out.append(decimal_u64(magnitude).as_str());
        assert(out@ =~= signed_decimal(value as int));
        out
    } else {
        decimal_u64(value as u64)
    }
}

/// Writes a number in decimal with leading zeros up to `width` characters.
pub fn padded_u64(value: u64, width: usize) -> (r: String)
    ensures
        r@ == padded_decimal(value as nat, width as nat),
{
    let digits = decimal_u64(value);
    let count = chars_of(digits.as_str()).len();
    let mut out = String::new();
    let mut i: usize = count;
    while i < width
        invariant
            out@ == Seq::new((if i >= count { (i - count) as nat } else { 0 }), |j: int| '0'),
            count <= i,
            i <= width || i == count,
        decreases width - i,
    {
        push_char(&mut out, '0');
        i += 1;
        assert(out@ =~= Seq::new((i - count) as nat, |j: int| '0'));
    }
    out.append(digits.as_str());
    assert(out@ =~= padded_decimal(value as nat, width as nat));
    out
}

/// Appends a number in decimal.
pub fn append_u64(text: &mut String, value: u64)
    ensures
        final(text)@ == old(text)@ + decimal(value as nat),
{
    text.append(decimal_u64(value).as_str());
}

/// Appends a signed number in decimal.
pub fn append_i32(text: &mut String, value: i32)
    ensures
        final(text)@ == old(text)@ + signed_decimal(value as int),
{
    text.append(decimal_i64(value as i64).as_str());
}

// ---------------------------------------------------------------------------------------------
// White space
// ---------------------------------------------------------------------------------------------

/// Whether a character has the Unicode property `White_Space`.
pub open spec fn is_space(c: char) -> bool {
    let code = c as u32;
    ||| 0x09 <= code <= 0x0D
    ||| code == 0x20
    ||| code == 0x85
    ||| code == 0xA0
    ||| code == 0x1680
    ||| 0x2000 <= code <= 0x200A
    ||| code == 0x2028
    ||| code == 0x2029
    ||| code == 0x202F
    ||| code == 0x205F
    ||| code == 0x3000
}

/// White space is what Unicode calls so: in ASCII the tab, the line breaks and the space, and beyond
/// it the spaces of other widths and the separators of lines and paragraphs.
pub proof fn law_white_space_is_that_of_unicode(c: char)
    ensures
        c as int <= 127 ==> (is_space(c) <==> c == ' ' || c == '\t' || c == '\n' || c == '\r' || c
            == '\u{b}' || c == '\u{c}'),
        c as int > 127 ==> (is_space(c) <==> c == '\u{85}' || c == '\u{a0}' || c == '\u{1680}' || (
        '\u{2000}' <= c <= '\u{200a}') || c == '\u{2028}' || c == '\u{2029}' || c == '\u{202f}' || c
            == '\u{205f}' || c == '\u{3000}'),
{
}

/// A text without the white space at its front.
pub open spec fn trimmed_front(text: Seq<char>) -> Seq<char>
    decreases text.len(),
{
    if text.len() > 0 && is_space(text.first()) {
        trimmed_front(text.drop_first())
    } else {
        text
    }
}

/// A text without the white space at its back.
pub open spec fn trimmed_back(text: Seq<char>) -> Seq<char>
    decreases text.len(),
{
    if text.len() > 0 && is_space(text.last()) {
        trimmed_back(text.drop_last())
    } else {
        text
    }
}

/// A text without the white space around it.
pub open spec fn trimmed(text: Seq<char>) -> Seq<char> {
    trimmed_back(trimmed_front(text))
}

/// Trimming takes white space and nothing else away: what is left stands in the text between two
/// stretches of white space, and neither begins nor ends with white space.
pub proof fn law_trimming_takes_the_white_space_around(text: Seq<char>)
    ensures
        exists|from: int, to: int|
            #![trigger text.subrange(from, to)]
            {
                &&& 0 <= from <= to <= text.len()
                &&& trimmed(text) == text.subrange(from, to)
                &&& forall|i: int| 0 <= i < from ==> is_space(#[trigger] text[i])
                &&& forall|i: int| to <= i < text.len() ==> is_space(#[trigger] text[i])
            },
        trimmed(text).len() > 0 ==> !is_space(trimmed(text).first()) && !is_space(
            trimmed(text).last(),
        ),
{
    let front = trimmed_front(text);
    let from = text.len() - front.len();
    lemma_trimmed_front(text);
    lemma_trimmed_back(front);
    let to = from + trimmed_back(front).len();
    assert(trimmed(text) =~= text.subrange(from, to));
    assert forall|i: int| to <= i < text.len() implies is_space(#[trigger] text[i]) by {
        assert(front[i - from] == text[i]);
    }
}

/// Trimming leaves nothing of an empty text.
pub proof fn lemma_trimmed_empty()
    ensures
        trimmed(Seq::<char>::empty()).len() == 0,
{
    assert(trimmed_front(Seq::<char>::empty()) =~= Seq::empty());
}

proof fn lemma_trimmed_front(text: Seq<char>)
    ensures
        ({
            let front = trimmed_front(text);
            let from = text.len() - front.len();
            &&& 0 <= from <= text.len()
            &&& front == text.skip(from)
            &&& forall|i: int| 0 <= i < from ==> is_space(#[trigger] text[i])
            &&& front.len() > 0 ==> !is_space(front.first())
        }),
    decreases text.len(),
{
    if text.len() > 0 && is_space(text.first()) {
        let rest = text.drop_first();
        lemma_trimmed_front(rest);
        let from = text.len() - trimmed_front(text).len();
        assert forall|i: int| 0 <= i < from implies is_space(#[trigger] text[i]) by {
            if i > 0 {
                assert(rest[i - 1] == text[i]);
            }
        }
        assert(rest.skip(from - 1) =~= text.skip(from));
    } else {
        assert(text.skip(0) =~= text);
    }
}

proof fn lemma_trimmed_back(text: Seq<char>)
    ensures
        ({
            let back = trimmed_back(text);
            &&& back.len() <= text.len()
            &&& back == text.take(back.len() as int)
            &&& forall|i: int| back.len() <= i < text.len() ==> is_space(#[trigger] text[i])
            &&& back.len() > 0 ==> !is_space(back.last())
            &&& text.len() > 0 && !is_space(text.first()) ==> back.len() > 0 && back.first()
                == text.first()
        }),
    decreases text.len(),
{
    if text.len() > 0 && is_space(text.last()) {
        let rest = text.drop_last();
        lemma_trimmed_back(rest);
        let back = trimmed_back(text);
        assert forall|i: int| back.len() <= i < text.len() implies is_space(#[trigger] text[i]) by {
            if i < rest.len() {
                assert(rest[i] == text[i]);
            }
        }
        assert(rest.take(back.len() as int) =~= text.take(back.len() as int));
        if text.len() > 1 {
            assert(rest.first() == text.first());
        }
    } else {
        assert(text.take(text.len() as int) =~= text);
    }
}

fn space(c: char) -> (r: bool)
    ensures
        r == is_space(c),
{
    let code = c as u32;
    (0x09 <= code && code <= 0x0D) || code == 0x20 || code == 0x85 || code == 0xA0 || code == 0x1680
        || (0x2000 <= code && code <= 0x200A) || code == 0x2028 || code == 0x2029 || code == 0x202F
        || code == 0x205F || code == 0x3000
}

/// Removes the white space around the characters from `from` up to `to`, and gives the range that
/// is left.
pub fn trim_range(chars: &Vec<char>, from: usize, to: usize) -> (r: (usize, usize))
    requires
        from <= to <= chars@.len(),
    ensures
        from <= r.0 <= r.1 <= to,
        chars@.subrange(r.0 as int, r.1 as int) == trimmed(chars@.subrange(from as int, to as int)),
{
    let ghost whole = chars@.subrange(from as int, to as int);
    let mut i: usize = from;
    while i < to && space(chars[i])
        invariant
            from <= i <= to <= chars@.len(),
            trimmed_front(chars@.subrange(i as int, to as int)) == trimmed_front(whole),
        decreases to - i,
    {
        assert(chars@.subrange(i as int, to as int).drop_first() =~= chars@.subrange(
            i + 1,
            to as int,
        ));
        i += 1;
    }
    let ghost front = chars@.subrange(i as int, to as int);
    assert(front == trimmed_front(whole));
    let mut j: usize = to;
    while i < j && space(chars[j - 1])
        invariant
            from <= i <= j <= to <= chars@.len(),
            trimmed_back(chars@.subrange(i as int, j as int)) == trimmed_back(front),
        decreases j - i,
    {
        assert(chars@.subrange(i as int, j as int).drop_last() =~= chars@.subrange(
            i as int,
            j - 1,
        ));
        j -= 1;
    }
    (i, j)
}

/// Removes the white space around a text.
pub fn trim(text: &str) -> (r: String)
    ensures
        r@ == trimmed(text@),
{
    let chars = chars_of(text);
    let (from, to) = trim_range(&chars, 0, chars.len());
    assert(chars@.subrange(0, chars@.len() as int) =~= text@);
    text_of(&chars, from, to)
}

/// Whether a text holds nothing but white space.
pub fn is_blank(text: &str) -> (r: bool)
    ensures
        r == (trimmed(text@).len() == 0),
{
    let chars = chars_of(text);
    let (from, to) = trim_range(&chars, 0, chars.len());
    assert(chars@.subrange(0, chars@.len() as int) =~= text@);
    from == to
}

// ---------------------------------------------------------------------------------------------
// Parts of texts
// ---------------------------------------------------------------------------------------------

/// The parts of a text between the occurrences of a separator.
pub open spec fn split_at_char(text: Seq<char>, separator: char) -> Seq<Seq<char>>
    decreases text.len(),
{
    if text.len() == 0 {
        seq![Seq::empty()]
    } else {
        let rest = split_at_char(text.drop_last(), separator);
        if text.last() == separator {
            rest.push(Seq::empty())
        } else {
            rest.update(rest.len() - 1, rest.last().push(text.last()))
        }
    }
}

/// Splitting gives at least one part.
pub proof fn lemma_split_nonempty(text: Seq<char>, separator: char)
    ensures
        split_at_char(text, separator).len() > 0,
    decreases text.len(),
{
    if text.len() > 0 {
        lemma_split_nonempty(text.drop_last(), separator);
    }
}

/// Texts that are joined by a separator are split into the parts of the one and of the other.
pub proof fn lemma_split_joined(a: Seq<char>, b: Seq<char>, separator: char)
    ensures
        split_at_char(a.push(separator) + b, separator) == split_at_char(a, separator)
            + split_at_char(b, separator),
    decreases b.len(),
{
    let whole = a.push(separator) + b;
    if b.len() == 0 {
        assert(whole =~= a.push(separator));
        assert(whole.drop_last() =~= a);
        assert(split_at_char(whole, separator) =~= split_at_char(a, separator) + split_at_char(
            b,
            separator,
        ));
    } else {
        lemma_split_joined(a, b.drop_last(), separator);
        lemma_split_nonempty(b.drop_last(), separator);
        assert(whole.drop_last() =~= a.push(separator) + b.drop_last());
        let left = split_at_char(a, separator);
        let right = split_at_char(b.drop_last(), separator);
        assert((left + right).last() == right.last());
        assert(split_at_char(whole, separator) =~= left + split_at_char(b, separator));
    }
}

/// A text without the separator is not split.
pub proof fn lemma_split_whole(text: Seq<char>, separator: char)
    requires
        !text.contains(separator),
    ensures
        split_at_char(text, separator) == seq![text],
    decreases text.len(),
{
    if text.len() == 0 {
        assert(text =~= Seq::empty());
    } else {
        assert(text.last() == text[text.len() - 1]);
        assert forall|i: int| 0 <= i < text.drop_last().len() implies text.drop_last()[i]
            != separator by {
            assert(text.drop_last()[i] == text[i]);
        }
        lemma_split_whole(text.drop_last(), separator);
        assert(text.drop_last().push(text.last()) =~= text);
        assert(split_at_char(text, separator) =~= seq![text]);
    }
}

/// The parts of a range of characters, each as the pair of its ends.
pub fn split_ranges(chars: &Vec<char>, separator: char) -> (r: Vec<(usize, usize)>)
    ensures
        r@.len() == split_at_char(chars@, separator).len(),
        forall|i: int|
            0 <= i < r@.len() ==> {
                &&& (#[trigger] r@[i]).0 <= r@[i].1 <= chars@.len()
                &&& chars@.subrange(r@[i].0 as int, r@[i].1 as int) == split_at_char(
                    chars@,
                    separator,
                )[i]
            },
{
    let mut out: Vec<(usize, usize)> = Vec::new();
    let mut start: usize = 0;
    let mut i: usize = 0;
    assert(chars@.take(0) =~= Seq::<char>::empty());
    assert(split_at_char(Seq::<char>::empty(), separator) =~= seq![Seq::<char>::empty()]);
    assert(chars@.subrange(0, 0) =~= Seq::<char>::empty());
    while i < chars.len()
        invariant
            start <= i <= chars@.len(),
            out@.len() + 1 == split_at_char(chars@.take(i as int), separator).len(),
            chars@.subrange(start as int, i as int) == split_at_char(
                chars@.take(i as int),
                separator,
            ).last(),
            forall|k: int|
                0 <= k < out@.len() ==> {
                    &&& (#[trigger] out@[k]).0 <= out@[k].1 <= chars@.len()
                    &&& chars@.subrange(out@[k].0 as int, out@[k].1 as int) == split_at_char(
                        chars@.take(i as int),
                        separator,
                    )[k]
                },
        decreases chars@.len() - i,
    {
        assert(chars@.take(i + 1).drop_last() =~= chars@.take(i as int));
        assert(chars@.take(i + 1).last() == chars@[i as int]);
        if chars[i] == separator {
            out.push((start, i));
            start = i + 1;
            assert(chars@.subrange(start as int, i + 1) =~= Seq::<char>::empty());
        } else {
            assert(chars@.subrange(start as int, i + 1) =~= chars@.subrange(
                start as int,
                i as int,
            ).push(chars@[i as int]));
        }
        i += 1;
    }
    assert(chars@.take(i as int) =~= chars@);
    out.push((start, i));
    out
}

/// Whether `part` stands somewhere in `text`.
pub open spec fn contains(text: Seq<char>, part: Seq<char>) -> bool {
    exists|i: int| occurs_at(text, part, i)
}

/// Whether `part` stands in `text` at the position `i`.
pub open spec fn occurs_at(text: Seq<char>, part: Seq<char>, i: int) -> bool {
    &&& 0 <= i <= text.len() - part.len()
    &&& text.subrange(i, i + part.len()) == part
}

/// Whether the characters of `part` stand in `chars` at the position `at`.
pub fn occurs(chars: &Vec<char>, part: &Vec<char>, at: usize, to: usize) -> (r: bool)
    requires
        at <= to <= chars@.len(),
    ensures
        r == occurs_at(chars@.take(to as int), part@, at as int),
{
    if part.len() > to - at {
        return false;
    }
    let mut k: usize = 0;
    while k < part.len()
        invariant
            at <= to <= chars@.len(),
            k <= part@.len() <= to - at,
            chars@.subrange(at as int, at + k) == part@.take(k as int),
        decreases part@.len() - k,
    {
        if chars[at + k] != part[k] {
            assert(chars@.take(to as int).subrange(at as int, at + part@.len())[k as int]
                == chars@[at + k]);
            return false;
        }
        k += 1;
        assert(chars@.subrange(at as int, at + k) =~= part@.take(k as int)) by {
            assert(part@.take(k as int) =~= part@.take(k - 1).push(part@[k - 1]));
            assert(chars@.subrange(at as int, at + k) =~= chars@.subrange(
                at as int,
                at + k - 1,
            ).push(chars@[at + k - 1]));
        }
    }
    assert(part@.take(part@.len() as int) =~= part@);
    assert(chars@.take(to as int).subrange(at as int, at + part@.len()) =~= chars@.subrange(
        at as int,
        at + part@.len(),
    ));
    true
}

/// Whether `part` stands somewhere in `text`.
pub fn text_contains(text: &str, part: &str) -> (r: bool)
    ensures
        r == contains(text@, part@),
{
    let chars = chars_of(text);
    let wanted = chars_of(part);
    let to = chars.len();
    assert(chars@.take(to as int) =~= text@);
    let mut i: usize = 0;
    loop
        invariant
            i <= to == chars@.len(),
            chars@ == text@,
            wanted@ == part@,
            chars@.take(to as int) == text@,
            forall|k: int| 0 <= k < i ==> !occurs_at(text@, part@, k),
        decreases to - i,
    {
        if occurs(&chars, &wanted, i, to) {
            assert(occurs_at(text@, part@, i as int));
            return true;
        }
        if i == to {
            assert forall|k: int| !occurs_at(text@, part@, k) by {
                if occurs_at(text@, part@, k) {
                    assert(0 <= k <= to);
                }
            }
            return false;
        }
        i += 1;
    }
}

// ---------------------------------------------------------------------------------------------
// ASCII case
// ---------------------------------------------------------------------------------------------

/// A character with the capital letters of ASCII made small.
pub open spec fn ascii_lower(c: char) -> char {
    if 65 <= c as u32 <= 90 {
        (c as u32 + 32) as char
    } else {
        c
    }
}

/// A character with the small letters of ASCII made capital.
pub open spec fn ascii_upper(c: char) -> char {
    if 97 <= c as u32 <= 122 {
        (c as u32 - 32) as char
    } else {
        c
    }
}

/// A text with the capital letters of ASCII made small.
pub open spec fn lowered(text: Seq<char>) -> Seq<char> {
    text.map_values(|c: char| ascii_lower(c))
}

/// Making letters small or capital moves the letters of ASCII by 32, keeps every other character,
/// and undoes itself.
pub proof fn law_letter_case(c: char)
    ensures
        'A' <= c <= 'Z' ==> ascii_lower(c) as int == c as int + 32 && ascii_upper(ascii_lower(c))
            == c && ascii_upper(c) == c,
        'a' <= c <= 'z' ==> ascii_upper(c) as int == c as int - 32 && ascii_lower(ascii_upper(c))
            == c && ascii_lower(c) == c,
        !('A' <= c <= 'Z') && !('a' <= c <= 'z') ==> ascii_lower(c) == c && ascii_upper(c) == c,
{
}

/// Making the letters of a text small keeps its length and changes each character for itself.
pub proof fn law_lowering_goes_by_characters(text: Seq<char>, index: int)
    requires
        0 <= index < text.len(),
    ensures
        lowered(text).len() == text.len(),
        'A' <= text[index] <= 'Z' ==> lowered(text)[index] as int == text[index] as int + 32,
        text[index] < 'A' || 'Z' < text[index] ==> lowered(text)[index] == text[index],
        lowered(lowered(text)) == lowered(text),
{
    law_letter_case(text[index]);
    assert(lowered(text)[index] == ascii_lower(text[index]));
    assert(lowered(lowered(text)) =~= lowered(text));
}

/// Makes a capital letter of ASCII small.
pub fn to_ascii_lower(c: char) -> (r: char)
    ensures
        r == ascii_lower(c),
{
    let code = c as u32;
    if 65 <= code && code <= 90 {
        (code as u8 + 32) as char
    } else {
        c
    }
}

/// Makes a small letter of ASCII capital.
pub fn to_ascii_upper(c: char) -> (r: char)
    ensures
        r == ascii_upper(c),
{
    let code = c as u32;
    if 97 <= code && code <= 122 {
        (code as u8 - 32) as char
    } else {
        c
    }
}

/// The text of the characters from `from` up to `to`, with the capital letters of ASCII made
/// small.
pub fn lowered_text(chars: &Vec<char>, from: usize, to: usize) -> (r: String)
    requires
        from <= to <= chars@.len(),
    ensures
        r@ == lowered(chars@.subrange(from as int, to as int)),
{
    let mut out = String::new();
    let mut i: usize = from;
    assert(out@ =~= lowered(chars@.subrange(from as int, from as int)));
    while i < to
        invariant
            from <= i <= to <= chars@.len(),
            out@ == lowered(chars@.subrange(from as int, i as int)),
        decreases to - i,
    {
        push_char(&mut out, to_ascii_lower(chars[i]));
        i += 1;
        assert(out@ =~= lowered(chars@.subrange(from as int, i as int)));
    }
    out
}

// ---------------------------------------------------------------------------------------------
// UTF-16
// ---------------------------------------------------------------------------------------------

/// The UTF-16 code units of a character.
pub open spec fn utf16_units(c: char) -> Seq<u16> {
    let code = c as u32;
    if code < 0x10000 {
        seq![code as u16]
    } else {
        seq![
            (0xD800 + (code - 0x10000) / 0x400) as u16,
            (0xDC00 + (code - 0x10000) % 0x400) as u16,
        ]
    }
}

/// A text in UTF-16.
pub open spec fn utf16(text: Seq<char>) -> Seq<u16>
    decreases text.len(),
{
    if text.len() == 0 {
        Seq::empty()
    } else {
        utf16(text.drop_last()) + utf16_units(text.last())
    }
}

/// A character up to `0xFFFF` is its own unit. Any other is a pair of surrogates, the high one
/// first, that share the twenty bits by which it exceeds `0x10000`.
pub proof fn law_units_of_a_character(c: char)
    ensures
        c as int <= 0xFFFF ==> utf16_units(c).len() == 1 && utf16_units(c)[0] == c as int,
        c as int > 0xFFFF ==> {
            &&& utf16_units(c).len() == 2
            &&& 0xD800 <= utf16_units(c)[0] <= 0xDBFF
            &&& 0xDC00 <= utf16_units(c)[1] <= 0xDFFF
            &&& 0x10000 + 0x400 * (utf16_units(c)[0] - 0xD800) + (utf16_units(c)[1] - 0xDC00)
                == c as int
        },
        utf16(seq![c]) == utf16_units(c),
{
    assert(seq![c].drop_last() =~= Seq::empty());
    assert(utf16(Seq::<char>::empty()) =~= Seq::empty());
    assert(utf16(seq![c]) =~= utf16_units(c));
}

/// Encodes a text in UTF-16.
pub fn encode_utf16(text: &str) -> (r: Vec<u16>)
    ensures
        r@ == utf16(text@),
{
    let chars = chars_of(text);
    let mut out: Vec<u16> = Vec::new();
    let mut i: usize = 0;
    assert(out@ =~= utf16(text@.take(0)));
    while i < chars.len()
        invariant
            i <= chars@.len(),
            chars@ == text@,
            out@ == utf16(text@.take(i as int)),
        decreases chars@.len() - i,
    {
        let code = chars[i] as u32;
        if code < 0x10000 {
            out.push(code as u16);
        } else {
            out.push((0xD800 + (code - 0x10000) / 0x400) as u16);
            out.push((0xDC00 + (code - 0x10000) % 0x400) as u16);
        }
        i += 1;
        assert(text@.take(i as int).drop_last() =~= text@.take(i - 1));
        assert(out@ =~= utf16(text@.take(i as int)));
    }
    assert(text@.take(i as int) =~= text@);
    out
}

/// A text in UTF-16 with a zero unit at its end.
pub open spec fn wide_null(text: Seq<char>) -> Seq<u16> {
    utf16(text).push(0)
}

/// Encodes a text in UTF-16 and ends it with a zero unit.
pub fn to_wide_null(value: &str) -> (r: Vec<u16>)
    ensures
        r@ == wide_null(value@),
{
    let mut out = encode_utf16(value);
    out.push(0);
    out
}

/// Whether a unit opens a surrogate pair.
pub open spec fn is_high_surrogate(unit: u16) -> bool {
    0xD800 <= unit <= 0xDBFF
}

/// Whether a unit closes a surrogate pair.
pub open spec fn is_low_surrogate(unit: u16) -> bool {
    0xDC00 <= unit <= 0xDFFF
}

/// The text that UTF-16 code units stand for; a surrogate without its partner becomes the
/// replacement character.
pub open spec fn utf16_text(units: Seq<u16>) -> Seq<char>
    decreases units.len(),
{
    if units.len() == 0 {
        Seq::empty()
    } else if is_high_surrogate(units[0]) && units.len() > 1 && is_low_surrogate(units[1]) {
        seq![
            (0x10000 + (units[0] - 0xD800) * 0x400 + (units[1] - 0xDC00)) as char,
        ] + utf16_text(units.skip(2))
    } else if is_high_surrogate(units[0]) || is_low_surrogate(units[0]) {
        seq!['\u{FFFD}'] + utf16_text(units.skip(1))
    } else {
        seq![units[0] as char] + utf16_text(units.skip(1))
    }
}

/// Decodes UTF-16.
pub fn decode_utf16(units: &[u16]) -> (r: String)
    ensures
        r@ == utf16_text(units@),
{
    let mut out = String::new();
    let mut i: usize = 0;
    assert(units@.skip(0) =~= units@);
    while i < units.len()
        invariant
            i <= units@.len(),
            out@ + utf16_text(units@.skip(i as int)) == utf16_text(units@),
        decreases units@.len() - i,
    {
        let ghost before = out@;
        let ghost rest = units@.skip(i as int);
        let unit = units[i];
        if 0xD800 <= unit && unit <= 0xDBFF && i + 1 < units.len() && 0xDC00 <= units[i + 1]
            && units[i + 1] <= 0xDFFF {
            let code: u32 = 0x10000 + (unit as u32 - 0xD800) * 0x400 + (units[i + 1] as u32
                - 0xDC00);
            match char_from_code(code) {
                Some(c) => push_char(&mut out, c),
                None => {},
            }
            i += 2;
            assert(rest.skip(2) =~= units@.skip(i as int));
        } else if 0xD800 <= unit && unit <= 0xDFFF {
            push_char(&mut out, '\u{FFFD}');
            i += 1;
            assert(rest.skip(1) =~= units@.skip(i as int));
        } else {
            match char_from_code(unit as u32) {
                Some(c) => push_char(&mut out, c),
                None => {},
            }
            i += 1;
            assert(rest.skip(1) =~= units@.skip(i as int));
        }
        assert(utf16_text(rest) == out@.skip(before.len() as int) + utf16_text(
            units@.skip(i as int),
        ));
        assert(out@ + utf16_text(units@.skip(i as int)) =~= before + utf16_text(rest));
    }
    assert(units@.skip(i as int) =~= Seq::<u16>::empty());
    assert(out@ + utf16_text(units@.skip(i as int)) =~= out@);
    out
}

/// Decoding what was encoded gives the text back.
pub proof fn law_utf16_round_trip(text: Seq<char>)
    ensures
        utf16_text(utf16(text)) == text,
    decreases text.len(),
{
    lemma_decode_after(text, Seq::empty());
    assert(utf16(text) + Seq::<u16>::empty() =~= utf16(text));
    assert(utf16_text(Seq::<u16>::empty()) =~= Seq::<char>::empty());
    assert(text + Seq::<char>::empty() =~= text);
}

/// Encoded characters are decoded one by one, whatever follows them.
proof fn lemma_decode_after(text: Seq<char>, rest: Seq<u16>)
    ensures
        utf16_text(utf16(text) + rest) == text + utf16_text(rest),
    decreases text.len(),
{
    if text.len() == 0 {
        assert(utf16(text) + rest =~= rest);
        assert(text + utf16_text(rest) =~= utf16_text(rest));
    } else {
        let last = text.last();
        let tail = utf16_units(last) + rest;
        assert(utf16(text) + rest =~= utf16(text.drop_last()) + tail);
        lemma_decode_after(text.drop_last(), tail);
        lemma_decode_one(last, rest);
        assert(text.drop_last() + (seq![last] + utf16_text(rest)) =~= text + utf16_text(rest));
    }
}

/// One encoded character is decoded, whatever follows it.
proof fn lemma_decode_one(c: char, rest: Seq<u16>)
    ensures
        utf16_text(utf16_units(c) + rest) == seq![c] + utf16_text(rest),
{
    let units = utf16_units(c) + rest;
    let code = c as u32;
    if code < 0x10000 {
        assert(units.skip(1) =~= rest);
        assert(units[0] == code);
        assert(!is_high_surrogate(units[0]) && !is_low_surrogate(units[0]));
        assert(units[0] as char == c);
    } else {
        assert(units.skip(2) =~= rest);
        assert(units[0] == 0xD800 + (code - 0x10000) / 0x400);
        assert(units[1] == 0xDC00 + (code - 0x10000) % 0x400);
        assert(0x10000 + (units[0] - 0xD800) * 0x400 + (units[1] - 0xDC00) == code);
    }
}

} // verus!
