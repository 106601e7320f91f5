//! Digits drawn five rows high with block characters.

use crate::text::{char_digit, digit_index};
use vstd::prelude::*;
use vstd::string::{StrSliceExecFns, StringExecFns};

verus! {

/// Row `row` of the glyph of digit `digit`.
pub open spec fn utf8_glyph_text(digit: int, row: int) -> Seq<char>
    recommends
        0 <= digit <= 9,
        0 <= row < 5,
{
    if digit == 0 && row == 0 {
        " ████  "@
    } else if digit == 0 && row == 1 {
        "██  ██ "@
    } else if digit == 0 && row == 2 {
        "██  ██ "@
    } else if digit == 0 && row == 3 {
        "██  ██ "@
    } else if digit == 0 && row == 4 {
        " ████  "@
    } else if digit == 1 && row == 0 {
        "  ██  "@
    } else if digit == 1 && row == 1 {
        " ███  "@
    } else if digit == 1 && row == 2 {
        "  ██  "@
    } else if digit == 1 && row == 3 {
        "  ██  "@
    } else if digit == 1 && row == 4 {
        " ████ "@
    } else if digit == 2 && row == 0 {
        " ████  "@
    } else if digit == 2 && row == 1 {
        "    ██ "@
    } else if digit == 2 && row == 2 {
        "  ███  "@
    } else if digit == 2 && row == 3 {
        " ██    "@
    } else if digit == 2 && row == 4 {
        " █████ "@
    } else if digit == 3 && row == 0 {
        " ████  "@
    } else if digit == 3 && row == 1 {
        "    ██ "@
    } else if digit == 3 && row == 2 {
        "  ███  "@
    } else if digit == 3 && row == 3 {
        "    ██ "@
    } else if digit == 3 && row == 4 {
        " ████  "@
    } else if digit == 4 && row == 0 {
        " ██ ██ "@
    } else if digit == 4 && row == 1 {
        " ██ ██ "@
    } else if digit == 4 && row == 2 {
        " █████ "@
    } else if digit == 4 && row == 3 {
        "    ██ "@
    } else if digit == 4 && row == 4 {
        "    ██ "@
    } else if digit == 5 && row == 0 {
        " ████ "@
    } else if digit == 5 && row == 1 {
        " ██   "@
    } else if digit == 5 && row == 2 {
        " ████ "@
    } else if digit == 5 && row == 3 {
        "   ██ "@
    } else if digit == 5 && row == 4 {
        " ████ "@
    } else if digit == 6 && row == 0 {
        "  ███  "@
    } else if digit == 6 && row == 1 {
        " ██    "@
    } else if digit == 6 && row == 2 {
        " ████  "@
    } else if digit == 6 && row == 3 {
        " ██ ██ "@
    } else if digit == 6 && row == 4 {
        "  ███  "@
    } else if digit == 7 && row == 0 {
        " █████ "@
    } else if digit == 7 && row == 1 {
        "    ██ "@
    } else if digit == 7 && row == 2 {
        "   ██  "@
    } else if digit == 7 && row == 3 {
        "  ██   "@
    } else if digit == 7 && row == 4 {
        " ██    "@
    } else if digit == 8 && row == 0 {
        "  ███  "@
    } else if digit == 8 && row == 1 {
        " ██ ██ "@
    } else if digit == 8 && row == 2 {
        "  ███  "@
    } else if digit == 8 && row == 3 {
        " ██ ██ "@
    } else if digit == 8 && row == 4 {
        "  ███  "@
    } else if digit == 9 && row == 0 {
        "  ███  "@
    } else if digit == 9 && row == 1 {
        " ██ ██ "@
    } else if digit == 9 && row == 2 {
        "  ████ "@
    } else if digit == 9 && row == 3 {
        "    ██ "@
    } else {
        "  ███  "@
    }
}

/// What one character adds to row `row`: the glyph row of a digit followed by one space,
/// and nothing for any other character.
pub open spec fn utf8_cell(c: char, row: int) -> Seq<char> {
    match digit_index(c) {
        Some(digit) => utf8_glyph_text(digit, row) + " "@,
        None => Seq::<char>::empty(),
    }
}

/// Row `row` of a text: the cells of its characters side by side.
pub open spec fn utf8_line(text: Seq<char>, row: int) -> Seq<char>
    decreases text.len(),
{
    if text.len() == 0 {
        Seq::empty()
    } else {
        utf8_line(text.drop_last(), row) + utf8_cell(text.last(), row)
    }
}

/// Row `row` of the glyph of digit `digit`.
pub fn utf8_glyph(digit: u8, row: usize) -> (glyph: &'static str)
    requires
        digit <= 9,
        row < 5,
    ensures
        glyph@ == utf8_glyph_text(digit as int, row as int),
{
    if digit == 0 && row == 0 {
        " ████  "
    } else if digit == 0 && row == 1 {
        "██  ██ "
    } else if digit == 0 && row == 2 {
        "██  ██ "
    } else if digit == 0 && row == 3 {
        "██  ██ "
    } else if digit == 0 && row == 4 {
        " ████  "
    } else if digit == 1 && row == 0 {
        "  ██  "
    } else if digit == 1 && row == 1 {
        " ███  "
    } else if digit == 1 && row == 2 {
        "  ██  "
    } else if digit == 1 && row == 3 {
        "  ██  "
    } else if digit == 1 && row == 4 {
        " ████ "
    } else if digit == 2 && row == 0 {
        " ████  "
    } else if digit == 2 && row == 1 {
        "    ██ "
    } else if digit == 2 && row == 2 {
        "  ███  "
    } else if digit == 2 && row == 3 {
        " ██    "
    } else if digit == 2 && row == 4 {
        " █████ "
    } else if digit == 3 && row == 0 {
        " ████  "
    } else if digit == 3 && row == 1 {
        "    ██ "
    } else if digit == 3 && row == 2 {
        "  ███  "
    } else if digit == 3 && row == 3 {
        "    ██ "
    } else if digit == 3 && row == 4 {
        " ████  "
    } else if digit == 4 && row == 0 {
        " ██ ██ "
    } else if digit == 4 && row == 1 {
        " ██ ██ "
    } else if digit == 4 && row == 2 {
        " █████ "
    } else if digit == 4 && row == 3 {
        "    ██ "
    } else if digit == 4 && row == 4 {
        "    ██ "
    } else if digit == 5 && row == 0 {
        " ████ "
    } else if digit == 5 && row == 1 {
        " ██   "
    } else if digit == 5 && row == 2 {
        " ████ "
    } else if digit == 5 && row == 3 {
        "   ██ "
    } else if digit == 5 && row == 4 {
        " ████ "
    } else if digit == 6 && row == 0 {
        "  ███  "
    } else if digit == 6 && row == 1 {
        " ██    "
    } else if digit == 6 && row == 2 {
        " ████  "
    } else if digit == 6 && row == 3 {
        " ██ ██ "
    } else if digit == 6 && row == 4 {
        "  ███  "
    } else if digit == 7 && row == 0 {
        " █████ "
    } else if digit == 7 && row == 1 {
        "    ██ "
    } else if digit == 7 && row == 2 {
        "   ██  "
    } else if digit == 7 && row == 3 {
        "  ██   "
    } else if digit == 7 && row == 4 {
        " ██    "
    } else if digit == 8 && row == 0 {
        "  ███  "
    } else if digit == 8 && row == 1 {
        " ██ ██ "
    } else if digit == 8 && row == 2 {
        "  ███  "
    } else if digit == 8 && row == 3 {
        " ██ ██ "
    } else if digit == 8 && row == 4 {
        "  ███  "
    } else if digit == 9 && row == 0 {
        "  ███  "
    } else if digit == 9 && row == 1 {
        " ██ ██ "
    } else if digit == 9 && row == 2 {
        "  ████ "
    } else if digit == 9 && row == 3 {
        "    ██ "
    } else {
        "  ███  "
    }
}

/// Row `row` of `input` in this font.
pub fn utf8_row(input: &str, row: usize) -> (line: String)
    requires
        row < 5,
    ensures
        line@ == utf8_line(input@, row as int),
{
    let n = input.unicode_len();
    let mut line = String::new();
    let mut i: usize = 0;
    while i < n
        invariant
            i <= n,
            n == input@.len(),
            row < 5,
            line@ == utf8_line(input@.take(i as int), row as int),
        decreases n - i,
    {
        let c = input.get_char(i);
        proof {
            let longer = input@.take(i + 1);
            assert(longer.drop_last() =~= input@.take(i as int));
            assert(longer.last() == c);
        }
        match char_digit(c) {
            Some(digit) => {
                line.append(utf8_glyph(digit, row));
                line.append(" ");
            },
            None => {
            },
        }
        i = i + 1;
    }
    assert(input@.take(n as int) =~= input@);
    line
}

/// Draws `input` five rows high, one blank column after each digit. A
/// character that is no digit is left out.
pub fn utf8_font(input: &str) -> (lines: Vec<String>)
    ensures
        lines@.len() == 5,
        forall|row: int| 0 <= row < 5 ==> (#[trigger] lines@[row])@ == utf8_line(input@, row),
{
    let mut lines: Vec<String> = Vec::new();
    let mut row: usize = 0;
    while row < 5
        invariant
            row <= 5,
            lines@.len() == row,
            forall|r: int| 0 <= r < row ==> (#[trigger] lines@[r])@ == utf8_line(input@, r),
        decreases 5 - row,
    {
        lines.push(utf8_row(input, row));
        row = row + 1;
    }
    lines
}

} // verus!
