//! Digits drawn six rows high with plain ASCII characters.

use crate::text::{char_digit, digit_index};
use vstd::prelude::*;
use vstd::string::{StrSliceExecFns, StringExecFns};

verus! {

/// Row `row` of the glyph of digit `digit`.
pub open spec fn lite_glyph_text(digit: int, row: int) -> Seq<char>
    recommends
        0 <= digit <= 9,
        0 <= row < 6,
{
    if digit == 0 && row == 0 {
        "  ___  "@
    } else if digit == 0 && row == 1 {
        " / _ \\ "@
    } else if digit == 0 && row == 2 {
        "| | | |"@
    } else if digit == 0 && row == 3 {
        "| | | |"@
    } else if digit == 0 && row == 4 {
        "| |_| |"@
    } else if digit == 0 && row == 5 {
        " \\___/ "@
    } else if digit == 1 && row == 0 {
        " __ "@
    } else if digit == 1 && row == 1 {
        "/_ |"@
    } else if digit == 1 && row == 2 {
        " | |"@
    } else if digit == 1 && row == 3 {
        " | |"@
    } else if digit == 1 && row == 4 {
        " | |"@
    } else if digit == 1 && row == 5 {
        " |_|"@
    } else if digit == 2 && row == 0 {
        " ___  "@
    } else if digit == 2 && row == 1 {
        "|__ \\ "@
    } else if digit == 2 && row == 2 {
        "   ) |"@
    } else if digit == 2 && row == 3 {
        "  / / "@
    } else if digit == 2 && row == 4 {
        " / /_ "@
    } else if digit == 2 && row == 5 {
        "|____|"@
    } else if digit == 3 && row == 0 {
        " ____  "@
    } else if digit == 3 && row == 1 {
        "|___ \\ "@
    } else if digit == 3 && row == 2 {
        "  __) |"@
    } else if digit == 3 && row == 3 {
        " |__ < "@
    } else if digit == 3 && row == 4 {
        " ___) |"@
    } else if digit == 3 && row == 5 {
        "|____/ "@
    } else if digit == 4 && row == 0 {
        " _  _   "@
    } else if digit == 4 && row == 1 {
        "| || |  "@
    } else if digit == 4 && row == 2 {
        "| || |_ "@
    } else if digit == 4 && row == 3 {
        "|__   _|"@
    } else if digit == 4 && row == 4 {
        "   | |  "@
    } else if digit == 4 && row == 5 {
        "   |_|  "@
    } else if digit == 5 && row == 0 {
        " _____ "@
    } else if digit == 5 && row == 1 {
        "| ____|"@
    } else if digit == 5 && row == 2 {
        "| |__  "@
    } else if digit == 5 && row == 3 {
        "|___ \\ "@
    } else if digit == 5 && row == 4 {
        " ___) |"@
    } else if digit == 5 && row == 5 {
        "|____/ "@
    } else if digit == 6 && row == 0 {
        "   __  "@
    } else if digit == 6 && row == 1 {
        "  / /  "@
    } else if digit == 6 && row == 2 {
        " / /_  "@
    } else if digit == 6 && row == 3 {
        "| '_ \\ "@
    } else if digit == 6 && row == 4 {
        "| (_) |"@
    } else if digit == 6 && row == 5 {
        " \\___/ "@
    } else if digit == 7 && row == 0 {
        " ______"@
    } else if digit == 7 && row == 1 {
        "|____  |"@
    } else if digit == 7 && row == 2 {
        "    / / "@
    } else if digit == 7 && row == 3 {
        "   / /  "@
    } else if digit == 7 && row == 4 {
        "  / /   "@
    } else if digit == 7 && row == 5 {
        " /_/    "@
    } else if digit == 8 && row == 0 {
        "  ___  "@
    } else if digit == 8 && row == 1 {
        " / _ \\ "@
    } else if digit == 8 && row == 2 {
        "| (_) |"@
    } else if digit == 8 && row == 3 {
        " > _ < "@
    } else if digit == 8 && row == 4 {
        "| (_) |"@
    } else if digit == 8 && row == 5 {
        " \\ _ / "@
    } else if digit == 9 && row == 0 {
        "  ___  "@
    } else if digit == 9 && row == 1 {
        " / _ \\ "@
    } else if digit == 9 && row == 2 {
        "| (_) |"@
    } else if digit == 9 && row == 3 {
        " \\__, |"@
    } else if digit == 9 && row == 4 {
        "   / / "@
    } else {
        "  /_/  "@
    }
}

/// What one character adds to row `row`: the glyph row of a digit,
/// and 7 spaces for any other character.
pub open spec fn lite_cell(c: char, row: int) -> Seq<char> {
    match digit_index(c) {
        Some(digit) => lite_glyph_text(digit, row),
        None => "       "@,
    }
}

/// Row `row` of a text: the cells of its characters side by side.
pub open spec fn lite_line(text: Seq<char>, row: int) -> Seq<char>
    decreases text.len(),
{
    if text.len() == 0 {
        Seq::empty()
    } else {
        lite_line(text.drop_last(), row) + lite_cell(text.last(), row)
    }
}

/// Row `row` of the glyph of digit `digit`.
pub fn lite_glyph(digit: u8, row: usize) -> (glyph: &'static str)
    requires
        digit <= 9,
        row < 6,
    ensures
        glyph@ == lite_glyph_text(digit as int, row as int),
{
    if digit == 0 && row == 0 {
        "  ___  "
    } else if digit == 0 && row == 1 {
        " / _ \\ "
    } else if digit == 0 && row == 2 {
        "| | | |"
    } else if digit == 0 && row == 3 {
        "| | | |"
    } else if digit == 0 && row == 4 {
        "| |_| |"
    } else if digit == 0 && row == 5 {
        " \\___/ "
    } else if digit == 1 && row == 0 {
        " __ "
    } else if digit == 1 && row == 1 {
        "/_ |"
    } else if digit == 1 && row == 2 {
        " | |"
    } else if digit == 1 && row == 3 {
        " | |"
    } else if digit == 1 && row == 4 {
        " | |"
    } else if digit == 1 && row == 5 {
        " |_|"
    } else if digit == 2 && row == 0 {
        " ___  "
    } else if digit == 2 && row == 1 {
        "|__ \\ "
    } else if digit == 2 && row == 2 {
        "   ) |"
    } else if digit == 2 && row == 3 {
        "  / / "
    } else if digit == 2 && row == 4 {
        " / /_ "
    } else if digit == 2 && row == 5 {
        "|____|"
    } else if digit == 3 && row == 0 {
        " ____  "
    } else if digit == 3 && row == 1 {
        "|___ \\ "
    } else if digit == 3 && row == 2 {
        "  __) |"
    } else if digit == 3 && row == 3 {
        " |__ < "
    } else if digit == 3 && row == 4 {
        " ___) |"
    } else if digit == 3 && row == 5 {
        "|____/ "
    } else if digit == 4 && row == 0 {
        " _  _   "
    } else if digit == 4 && row == 1 {
        "| || |  "
    } else if digit == 4 && row == 2 {
        "| || |_ "
    } else if digit == 4 && row == 3 {
        "|__   _|"
    } else if digit == 4 && row == 4 {
        "   | |  "
    } else if digit == 4 && row == 5 {
        "   |_|  "
    } else if digit == 5 && row == 0 {
        " _____ "
    } else if digit == 5 && row == 1 {
        "| ____|"
    } else if digit == 5 && row == 2 {
        "| |__  "
    } else if digit == 5 && row == 3 {
        "|___ \\ "
    } else if digit == 5 && row == 4 {
        " ___) |"
    } else if digit == 5 && row == 5 {
        "|____/ "
    } else if digit == 6 && row == 0 {
        "   __  "
    } else if digit == 6 && row == 1 {
        "  / /  "
    } else if digit == 6 && row == 2 {
        " / /_  "
    } else if digit == 6 && row == 3 {
        "| '_ \\ "
    } else if digit == 6 && row == 4 {
        "| (_) |"
    } else if digit == 6 && row == 5 {
        " \\___/ "
    } else if digit == 7 && row == 0 {
        " ______"
    } else if digit == 7 && row == 1 {
        "|____  |"
    } else if digit == 7 && row == 2 {
        "    / / "
    } else if digit == 7 && row == 3 {
        "   / /  "
    } else if digit == 7 && row == 4 {
        "  / /   "
    } else if digit == 7 && row == 5 {
        " /_/    "
    } else if digit == 8 && row == 0 {
        "  ___  "
    } else if digit == 8 && row == 1 {
        " / _ \\ "
    } else if digit == 8 && row == 2 {
        "| (_) |"
    } else if digit == 8 && row == 3 {
        " > _ < "
    } else if digit == 8 && row == 4 {
        "| (_) |"
    } else if digit == 8 && row == 5 {
        " \\ _ / "
    } else if digit == 9 && row == 0 {
        "  ___  "
    } else if digit == 9 && row == 1 {
        " / _ \\ "
    } else if digit == 9 && row == 2 {
        "| (_) |"
    } else if digit == 9 && row == 3 {
        " \\__, |"
    } else if digit == 9 && row == 4 {
        "   / / "
    } else {
        "  /_/  "
    }
}

/// Row `row` of `input` in this font.
pub fn lite_row(input: &str, row: usize) -> (line: String)
    requires
        row < 6,
    ensures
        line@ == lite_line(input@, row as int),
{
    let n = input.unicode_len();
    let mut line = String::new();
    let mut i: usize = 0;
    while i < n
        invariant
            i <= n,
            n == input@.len(),
            row < 6,
            line@ == lite_line(input@.take(i as int), row as int),
        decreases n - i,
    {
        let c = input.get_char(i);
        proof {
            let longer = input@.take(i + 1);
            assert(longer.drop_last() =~= input@.take(i as int));
            assert(longer.last() == c);
        }
        match char_digit(c) {
            Some(digit) => {
                line.append(lite_glyph(digit, row));
            },
            None => {
                line.append("       ");
            },
        }
        i = i + 1;
    }
    assert(input@.take(n as int) =~= input@);
    line
}

/// Draws `input` six rows high. A character that is no digit takes seven
/// blank columns.
pub fn render_lite_number_lines(input: &str) -> (lines: Vec<String>)
    ensures
        lines@.len() == 6,
        forall|row: int| 0 <= row < 6 ==> (#[trigger] lines@[row])@ == lite_line(input@, row),
{
    let mut lines: Vec<String> = Vec::new();
    let mut row: usize = 0;
    while row < 6
        invariant
            row <= 6,
            lines@.len() == row,
            forall|r: int| 0 <= r < row ==> (#[trigger] lines@[r])@ == lite_line(input@, r),
        decreases 6 - row,
    {
        lines.push(lite_row(input, row));
        row = row + 1;
    }
    lines
}

} // verus!
