//! Digits drawn three rows high with line-drawing characters.

use crate::text::{char_digit, digit_index};
use vstd::prelude::*;
use vstd::string::{StrSliceExecFns, StringExecFns};

verus! {

/// Row `row` of the glyph of digit `digit`.
pub open spec fn pipe_glyph_text(digit: int, row: int) -> Seq<char>
    recommends
        0 <= digit <= 9,
        0 <= row < 3,
{
    if digit == 0 && row == 0 {
        "в•”в•ђв•—"@
    } else if digit == 0 && row == 1 {
        "в•‘ в•‘"@
    } else if digit == 0 && row == 2 {
        "в•љв•ђв•ќ"@
    } else if digit == 1 && row == 0 {
        " в•‘ "@
    } else if digit == 1 && row == 1 {
        " в•‘ "@
    } else if digit == 1 && row == 2 {
        " в•‘ "@
    } else if digit == 2 && row == 0 {
        "в•”в•ђв•—"@
    } else if digit == 2 && row == 1 {
        "в•”в•ђв•ќ"@
    } else if digit == 2 && row == 2 {
        "в•љв•ђв•ќ"@
    } else if digit == 3 && row == 0 {
        "в•”в•ђв•—"@
    } else if digit == 3 && row == 1 {
        " в•ђв•Ј"@
    } else if digit == 3 && row == 2 {
        "в•љв•ђв•ќ"@
    } else if digit == 4 && row == 0 {
        "в•‘ в•‘"@
    } else if digit == 4 && row == 1 {
        "в•љв•ђв•Ј"@
    } else if digit == 4 && row == 2 {
        "  в•‘"@
    } else if digit == 5 && row == 0 {
        "в•”в•ђв•ђ"@
    } else if digit == 5 && row == 1 {
        "в•љв•ђв•—"@
    } else if digit == 5 && row == 2 {
        "в•љв•ђв•ќ"@
    } else if digit == 6 && row == 0 {
        "в•”в•ђв•ђ"@
    } else if digit == 6 && row == 1 {
        "в• в•ђв•—"@
    } else if digit == 6 && row == 2 {
        "в•љв•ђв•ќ"@
    } else if digit == 7 && row == 0 {
        "в•ђв•ђв•—"@
    } else if digit == 7 && row == 1 {
        "  в•‘"@
    } else if digit == 7 && row == 2 {
        "  в•‘"@
    } else if digit == 8 && row == 0 {
        "в•”в•ђв•—"@
    } else if digit == 8 && row == 1 {
        "в• в•ђв•Ј"@
    } else if digit == 8 && row == 2 {
        "в•љв•ђв•ќ"@
    } else if digit == 9 && row == 0 {
        "в•”в•ђв•—"@
    } else if digit == 9 && row == 1 {
        "в•љв•ђв•Ј"@
    } else {
        "в•ђв•ђв•ќ"@
    }
}

/// What one character adds to row `row`: the glyph row of a digit,
/// and 3 spaces for any other character.
pub open spec fn pipe_cell(c: char, row: int) -> Seq<char> {
    match digit_index(c) {
        Some(digit) => pipe_glyph_text(digit, row),
        None => "   "@,
    }
}

/// Row `row` of a text: the cells of its characters side by side.
pub open spec fn pipe_line(text: Seq<char>, row: int) -> Seq<char>
    decreases text.len(),
{
    if text.len() == 0 {
        Seq::empty()
    } else {
        pipe_line(text.drop_last(), row) + pipe_cell(text.last(), row)
    }
}

/// Row `row` of the glyph of digit `digit`.
pub fn pipe_glyph(digit: u8, row: usize) -> (glyph: &'static str)
    requires
        digit <= 9,
        row < 3,
    ensures
        glyph@ == pipe_glyph_text(digit as int, row as int),
{
    if digit == 0 && row == 0 {
        "в•”в•ђв•—"
    } else if digit == 0 && row == 1 {
        "в•‘ в•‘"
    } else if digit == 0 && row == 2 {
        "в•љв•ђв•ќ"
    } else if digit == 1 && row == 0 {
        " в•‘ "
    } else if digit == 1 && row == 1 {
        " в•‘ "
    } else if digit == 1 && row == 2 {
        " в•‘ "
    } else if digit == 2 && row == 0 {
        "в•”в•ђв•—"
    } else if digit == 2 && row == 1 {
        "в•”в•ђв•ќ"
    } else if digit == 2 && row == 2 {
        "в•љв•ђв•ќ"
    } else if digit == 3 && row == 0 {
        "в•”в•ђв•—"
    } else if digit == 3 && row == 1 {
        " в•ђв•Ј"
    } else if digit == 3 && row == 2 {
        "в•љв•ђв•ќ"
    } else if digit == 4 && row == 0 {
        "в•‘ в•‘"
    } else if digit == 4 && row == 1 {
        "в•љв•ђв•Ј"
    } else if digit == 4 && row == 2 {
        "  в•‘"
    } else if digit == 5 && row == 0 {
        "в•”в•ђв•ђ"
    } else if digit == 5 && row == 1 {
        "в•љв•ђв•—"
    } else if digit == 5 && row == 2 {
        "в•љв•ђв•ќ"
    } else if digit == 6 && row == 0 {
        "в•”в•ђв•ђ"
    } else if digit == 6 && row == 1 {
        "в• в•ђв•—"
    } else if digit == 6 && row == 2 {
        "в•љв•ђв•ќ"
    } else if digit == 7 && row == 0 {
        "в•ђв•ђв•—"
    } else if digit == 7 && row == 1 {
        "  в•‘"
    } else if digit == 7 && row == 2 {
        "  в•‘"
    } else if digit == 8 && row == 0 {
        "в•”в•ђв•—"
    } else if digit == 8 && row == 1 {
        "в• в•ђв•Ј"
    } else if digit == 8 && row == 2 {
        "в•љв•ђв•ќ"
    } else if digit == 9 && row == 0 {
        "в•”в•ђв•—"
    } else if digit == 9 && row == 1 {
        "в•љв•ђв•Ј"
    } else {
        "в•ђв•ђв•ќ"
    }
}

/// Row `row` of `input` in this font.
pub fn pipe_row(input: &str, row: usize) -> (line: String)
    requires
        row < 3,
    ensures
        line@ == pipe_line(input@, row as int),
{
    let n = input.unicode_len();
    let mut line = String::new();
    let mut i: usize = 0;
    while i < n
        invariant
            i <= n,
            n == input@.len(),
            row < 3,
            line@ == pipe_line(input@.take(i as int), row as int),
        decreases n - i,
    {
        let c = input.get_char(i);
        proof {
            let longer = input@.take(i + 1);
            assert(longer.drop_last() =~= input@.take(i as int));
            assert(longer.last() == c);
        }
        match char_digit(c) {
            Some(digit) => {
                line.append(pipe_glyph(digit, row));
            },
            None => {
                line.append("   ");
            },
        }
        i = i + 1;
    }
    assert(input@.take(n as int) =~= input@);
    line
}

/// Draws `input` three rows high. A character that is no digit takes three
/// blank columns.
pub fn big_number_font(input: &str) -> (lines: Vec<String>)
    ensures
        lines@.len() == 3,
        forall|row: int| 0 <= row < 3 ==> (#[trigger] lines@[row])@ == pipe_line(input@, row),
{
    let mut lines: Vec<String> = Vec::new();
    let mut row: usize = 0;
    while row < 3
        invariant
            row <= 3,
            lines@.len() == row,
            forall|r: int| 0 <= r < row ==> (#[trigger] lines@[r])@ == pipe_line(input@, r),
        decreases 3 - row,
    {
        lines.push(pipe_row(input, row));
        row = row + 1;
    }
    lines
}

} // verus!
