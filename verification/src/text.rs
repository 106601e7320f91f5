//! Text building blocks: decimal rendering of numbers and joining of strings.

use vstd::prelude::*;
use vstd::string::{StrSliceExecFns, StringExecFns};

verus! {

/// The character that shows the decimal digit `d`.
pub open spec fn digit_char(d: int) -> char
    recommends
        0 <= d <= 9,
{
    (48 + d) as char
}

/// The last `width` decimal digits of `n`, most significant first, with
/// leading zeros where `n` is shorter.
pub open spec fn padded_decimal_text(n: nat, width: nat) -> Seq<char>
    decreases width,
{
    if width == 0 {
        Seq::empty()
    } else {
        padded_decimal_text(n / 10, (width - 1) as nat).push(digit_char((n % 10) as int))
    }
}

/// The decimal digits of `n` without leading zeros; `0` is one digit.
pub open spec fn decimal_text(n: nat) -> Seq<char>
    decreases n,
{
    if n < 10 {
        seq![digit_char(n as int)]
    } else {
        decimal_text(n / 10).push(digit_char((n % 10) as int))
    }
}

/// `padded_decimal_text` always has exactly `width` characters.
pub proof fn lemma_padded_decimal_len(n: nat, width: nat)
    ensures
        padded_decimal_text(n, width).len() == width,
    decreases width,
{
    if width > 0 {
        lemma_padded_decimal_len(n / 10, (width - 1) as nat);
    }
}

/// Appends one character to a string.
///
/// Trusted: calls `String::push`, which std documents as appending the given
/// character to the end of the string.
#[verifier::external_body]
pub(crate) fn push_char(s: &mut String, c: char)
    ensures
        final(s)@ == old(s)@.push(c),
{
    s.push(c)
}

/// The character for one decimal digit.
pub fn digit_to_char(d: u8) -> (c: char)
    requires
        d <= 9,
    ensures
        c == digit_char(d as int),
{
    (48u8 + d) as char
}

/// Renders `n` in exactly `width` decimal digits, zero padded on the left;
/// digits of `n` beyond `width` are cut off.
pub fn padded_decimal(n: u64, width: usize) -> (out: String)
    ensures
        out@ == padded_decimal_text(n as nat, width as nat),
        out@.len() == width,
{
    let mut digits: Vec<u8> = Vec::new();
    let mut rest: u64 = n;
    let mut i: usize = 0;
    // Least significant digit first.
    while i < width
        invariant
            i <= width,
            digits@.len() == i,
            forall|k: int| 0 <= k < i ==> digits@[k] <= 9,
            forall|w: nat| #![trigger padded_decimal_text(rest as nat, w)]
                padded_decimal_text(n as nat, w + i as nat) == padded_decimal_text(rest as nat, w)
                    + Seq::new(i as nat, |k: int| digit_char(digits@[i - 1 - k] as int)),
        decreases width - i,
    {
        let d: u8 = (rest % 10) as u8;
        let ghost before_rest = rest;
        let ghost before_digits = digits@;
        digits.push(d);
        rest = rest / 10;
        i = i + 1;
        proof {
            assert forall|w: nat| #![trigger padded_decimal_text(rest as nat, w)]
                padded_decimal_text(n as nat, w + i as nat) == padded_decimal_text(rest as nat, w)
                    + Seq::new(i as nat, |k: int| digit_char(digits@[i - 1 - k] as int)) by {
                let tail_before = Seq::new(
                    (i - 1) as nat,
                    |k: int| digit_char(before_digits[i - 2 - k] as int),
                );
                let tail_now = Seq::new(
                    i as nat,
                    |k: int| digit_char(digits@[i - 1 - k] as int),
                );
                assert(padded_decimal_text(n as nat, (w + 1) + (i - 1) as nat)
                    == padded_decimal_text(before_rest as nat, w + 1) + tail_before);
                assert(padded_decimal_text(before_rest as nat, w + 1) == padded_decimal_text(
                    rest as nat,
                    w,
                ).push(digit_char(d as int)));
                assert(tail_now =~= seq![digit_char(d as int)] + tail_before);
                assert(padded_decimal_text(rest as nat, w).push(digit_char(d as int)) + tail_before
                    =~= padded_decimal_text(rest as nat, w) + tail_now);
            }
        }
    }
    let mut out = String::new();
    let mut j: usize = 0;
    while j < width
        invariant
            j <= width,
            digits@.len() == width,
            forall|k: int| 0 <= k < width ==> digits@[k] <= 9,
            out@ == Seq::new(j as nat, |k: int| digit_char(digits@[width - 1 - k] as int)),
        decreases width - j,
    {
        let c = digit_to_char(digits[width - 1 - j]);
        push_char(&mut out, c);
        j = j + 1;
        assert(out@ =~= Seq::new(j as nat, |k: int| digit_char(digits@[width - 1 - k] as int)));
    }
    proof {
        assert(padded_decimal_text(n as nat, 0 + width as nat) == padded_decimal_text(
            rest as nat,
            0,
        ) + out@);
        assert(padded_decimal_text(rest as nat, 0) + out@ =~= out@);
    }
    out
}

/// Renders `n` in decimal without leading zeros.
pub fn decimal(n: u64) -> (out: String)
    ensures
        out@ == decimal_text(n as nat),
    decreases n,
{
    if n < 10 {
        let mut out = String::new();
        push_char(&mut out, digit_to_char(n as u8));
        assert(out@ =~= seq![digit_char(n as int)]);
        out
    } else {
        let mut out = decimal(n / 10);
        push_char(&mut out, digit_to_char((n % 10) as u8));
        out
    }
}

/// The text `a` followed by the text `b`.
pub fn join_text(a: &str, b: &str) -> (out: String)
    ensures
        out@ == a@ + b@,
{
    let mut out = a.to_owned();
    out.append(b);
    out
}

/// Whether `c` is one of the ten ASCII digits.
pub open spec fn is_digit(c: char) -> bool {
    '0' <= c <= '9'
}

/// The number that a run of ASCII digits writes in decimal.
pub open spec fn digits_value(digits: Seq<char>) -> nat
    decreases digits.len(),
{
    if digits.len() == 0 {
        0
    } else {
        digits_value(digits.drop_last()) * 10 + (digits.last() as int - 48) as nat
    }
}

/// The digits of a written index: the text without one leading `+`.
pub open spec fn index_digits(text: Seq<char>) -> Seq<char> {
    if text.len() > 0 && text[0] == '+' {
        text.skip(1)
    } else {
        text
    }
}

/// Whether every character of `text` is an ASCII digit.
pub open spec fn all_digits(text: Seq<char>) -> bool {
    forall|i: int| 0 <= i < text.len() ==> is_digit(#[trigger] text[i])
}

/// The index that `text` writes, as a decimal number of at least one ASCII
/// digit, optionally after one `+`, that fits a `usize`; `None` for any other
/// text.
pub open spec fn parsed_index(text: Seq<char>) -> Option<usize> {
    let digits = index_digits(text);
    if digits.len() > 0 && all_digits(digits) && digits_value(digits) <= usize::MAX {
        Some(digits_value(digits) as usize)
    } else {
        None
    }
}

/// The value of a run of digits is at least the value of each of its
/// beginnings.
pub proof fn lemma_digits_value_prefix(digits: Seq<char>, k: int)
    requires
        0 <= k <= digits.len(),
        all_digits(digits),
    ensures
        digits_value(digits.take(k)) <= digits_value(digits),
    decreases digits.len() - k,
{
    if k == digits.len() {
        assert(digits.take(k) =~= digits);
    } else {
        lemma_digits_value_prefix(digits, k + 1);
        let longer = digits.take(k + 1);
        assert(longer.drop_last() =~= digits.take(k));
        assert(is_digit(digits[k]));
        assert(longer.last() == digits[k]);
        assert(digits_value(longer) == digits_value(digits.take(k)) * 10 + (digits[k] as int
            - 48) as nat);
    }
}

/// Reads a non-negative decimal index from `text`.
pub fn parse_index(text: &str) -> (index: Option<usize>)
    ensures
        index == parsed_index(text@),
{
    if !text.is_ascii() {
        proof {
            let at = choose|i: int|
                0 <= i < text@.len() && !('\0' <= #[trigger] text@[i] <= '\u{7f}');
            let digits = index_digits(text@);
            if text@[0] == '+' {
                assert(digits[at - 1] == text@[at]);
                assert(!is_digit(digits[at - 1]));
            } else {
                assert(!is_digit(digits[at]));
            }
        }
        return None;
    }
    let n = text.unicode_len();
    if n == 0 {
        return None;
    }
    let start: usize = if text.get_ascii(0) == 43 {
        1
    } else {
        0
    };
    let ghost digits = index_digits(text@);
    assert(digits =~= text@.skip(start as int));
    if start == n {
        return None;
    }
    let mut value: usize = 0;
    let mut i: usize = start;
    while i < n
        invariant
            start <= i <= n,
            n == text@.len(),
            text.is_ascii(),
            digits == text@.skip(start as int),
            digits == index_digits(text@),
            all_digits(digits.take(i - start)),
            value == digits_value(digits.take(i - start)),
        decreases n - i,
    {
        let b = text.get_ascii(i);
        let ghost k = i - start;
        assert(digits[k] == text@[i as int]);
        assert('\0' <= text@[i as int] <= '\u{7f}');
        assert(digits[k] as int == b);
        if b < 48 || b > 57 {
            assert(!is_digit(digits[k]));
            return None;
        }
        proof {
            assert(is_digit(digits[k]));
            let longer = digits.take(k + 1);
            assert(longer.drop_last() =~= digits.take(k));
            assert(longer.last() == digits[k]);
            assert(digits_value(longer) == value * 10 + (b - 48));
            assert forall|j: int| 0 <= j < longer.len() implies is_digit(#[trigger] longer[j]) by {
                if j < k {
                    assert(longer[j] == digits.take(k)[j]);
                }
            }
            if all_digits(digits) {
                lemma_digits_value_prefix(digits, k + 1);
            }
        }
        let scaled = match value.checked_mul(10) {
            Some(v) => v,
            None => {
                return None;
            },
        };
        value = match scaled.checked_add((b - 48) as usize) {
            Some(v) => v,
            None => {
                return None;
            },
        };
        i = i + 1;
    }
    assert(digits.take(n - start) =~= digits);
    Some(value)
}

/// The digit that `c` shows, if it is an ASCII digit.
pub open spec fn digit_index(c: char) -> Option<int> {
    if is_digit(c) {
        Some(c as int - 48)
    } else {
        None
    }
}

/// The digit that `c` shows, if it is an ASCII digit.
pub fn char_digit(c: char) -> (digit: Option<u8>)
    ensures
        match digit {
            Some(d) => digit_index(c) == Some(d as int) && d <= 9,
            None => digit_index(c) is None,
        },
{
    let code = c as u32;
    if 48 <= code && code <= 57 {
        Some((code - 48) as u8)
    } else {
        None
    }
}

/// Removes the last character of a string, if it has one.
pub fn pop_char(s: &mut String)
    ensures
        final(s)@ == if old(s)@.len() > 0 {
            old(s)@.drop_last()
        } else {
            old(s)@
        },
{
    let n = s.as_str().unicode_len();
    if n > 0 {
        let shorter = s.as_str().substring_char(0, n - 1).to_owned();
        *s = shorter;
    }
}

/// The character `c`, `count` times.
pub fn repeated(c: char, count: usize) -> (out: String)
    ensures
        out@ == Seq::new(count as nat, |i: int| c),
{
    let mut out = String::new();
    let mut i: usize = 0;
    while i < count
        invariant
            i <= count,
            out@ == Seq::new(i as nat, |k: int| c),
        decreases count - i,
    {
        push_char(&mut out, c);
        i = i + 1;
        assert(out@ =~= Seq::new(i as nat, |k: int| c));
    }
    out
}

/// Whether `c` is white space, as Unicode defines it.
pub open spec fn is_space(c: char) -> bool {
    let code = c as int;
    ||| 0x09 <= code <= 0x0d
    ||| code == 0x20
    ||| code == 0x85
    ||| code == 0xa0
    ||| code == 0x1680
    ||| 0x2000 <= code <= 0x200a
    ||| code == 0x2028
    ||| code == 0x2029
    ||| code == 0x202f
    ||| code == 0x205f
    ||| code == 0x3000
}

/// `text` without the white space at its start.
pub open spec fn trim_start(text: Seq<char>) -> Seq<char>
    decreases text.len(),
{
    if text.len() > 0 && is_space(text[0]) {
        trim_start(text.drop_first())
    } else {
        text
    }
}

/// `text` without the white space at its end.
pub open spec fn trim_end(text: Seq<char>) -> Seq<char>
    decreases text.len(),
{
    if text.len() > 0 && is_space(text.last()) {
        trim_end(text.drop_last())
    } else {
        text
    }
}

/// `text` without the white space at its start and at its end.
pub open spec fn trimmed(text: Seq<char>) -> Seq<char> {
    trim_end(trim_start(text))
}

/// Whether `c` is white space.
pub fn char_is_space(c: char) -> (answer: bool)
    ensures
        answer == is_space(c),
{
    let code = c as u32;
    (0x09 <= code && code <= 0x0d) || code == 0x20 || code == 0x85 || code == 0xa0 || code
        == 0x1680 || (0x2000 <= code && code <= 0x200a) || code == 0x2028 || code == 0x2029
        || code == 0x202f || code == 0x205f || code == 0x3000
}

/// `text` without the white space at its start and at its end.
pub fn trim(text: &str) -> (out: String)
    ensures
        out@ == trimmed(text@),
{
    let n = text.unicode_len();
    let mut start: usize = 0;
    assert(text@.skip(0) =~= text@);
    while start < n && char_is_space(text.get_char(start))
        invariant
            start <= n,
            n == text@.len(),
            trim_start(text@) == trim_start(text@.skip(start as int)),
        decreases n - start,
    {
        proof {
            let rest = text@.skip(start as int);
            assert(rest[0] == text@[start as int]);
            assert(rest.drop_first() =~= text@.skip(start + 1));
        }
        start = start + 1;
    }
    let ghost kept = text@.skip(start as int);
    assert(trim_start(text@) == kept) by {
        if start < n {
            assert(kept[0] == text@[start as int]);
        }
    }
    let mut end: usize = n;
    while end > start && char_is_space(text.get_char(end - 1))
        invariant
            start <= end <= n,
            n == text@.len(),
            kept == text@.skip(start as int),
            trim_end(kept) == trim_end(text@.subrange(start as int, end as int)),
        decreases end - start,
    {
        proof {
            let part = text@.subrange(start as int, end as int);
            assert(part.last() == text@[end - 1]);
            assert(part.drop_last() =~= text@.subrange(start as int, end - 1));
        }
        end = end - 1;
    }
    proof {
        let part = text@.subrange(start as int, end as int);
        if end > start {
            assert(part.last() == text@[end - 1]);
        }
        assert(trim_end(part) == part);
        assert(text@.subrange(start as int, n as int) =~= kept);
    }
    text.substring_char(start, end).to_owned()
}

} // verus!
