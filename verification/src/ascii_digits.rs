//! The large five-row glyphs of the countdown display.

use ratatui::style::{Color, Style};
use ratatui::text::Line;
use vstd::prelude::*;
use vstd::string::*;

verus! {

/// A colour of the terminal, carried through to the lines that are drawn in
/// it.
#[verifier::external_type_specification]
#[verifier::external_body]
pub struct ExColor(Color);

/// One line of styled terminal text.
#[verifier::external_type_specification]
#[verifier::external_body]
pub struct ExLine<'a>(Line<'a>);

/// The text of a line: what its spans hold, read one after another.
pub uninterp spec fn line_text(line: Line<'static>) -> Seq<char>;

/// `Line::from` on a `String`, followed by `Line::style` with the default
/// style in the foreground colour `color`. A text without line feed or
/// carriage return becomes the line's text as it is (line endings would be
/// dropped).
#[verifier::external_body]
fn colored_line(text: String, color: Color) -> (line: Line<'static>)
    ensures
        !text@.contains('\n') && !text@.contains('\r') ==> line_text(line) == text@,
{
    Line::from(text).style(Style::default().fg(color))
}

/// Rows in every glyph.
pub const GLYPH_HEIGHT: usize = 5;

/// Characters in every glyph row.
pub const GLYPH_WIDTH: usize = 6;

/// The characters that glyphs are drawn with: the ten digits, the colon and
/// the space.
pub open spec fn is_glyph_char(c: char) -> bool {
    '0' <= c <= '9' || c == ':' || c == ' '
}

/// The five rows of the glyph for `digit`, top to bottom. The ten digits and
/// the colon have a glyph of their own; every other character is blank.
pub open spec fn digit_rows(digit: char) -> Seq<Seq<char>> {
    match digit {
        '0' => seq![" 0000 "@, "00  00"@, "00  00"@, "00  00"@, " 0000 "@],
        '1' => seq![" 1111 "@, "   11 "@, "   11 "@, "   11 "@, "111111"@],
        '2' => seq![" 2222 "@, "22  22"@, "   22 "@, "  22  "@, "222222"@],
        '3' => seq![" 3333 "@, "33  33"@, "   333"@, "33  33"@, " 3333 "@],
        '4' => seq!["44  44"@, "44  44"@, "444444"@, "    44"@, "    44"@],
        '5' => seq!["555555"@, "55    "@, "55555 "@, "    55"@, "55555 "@],
        '6' => seq![" 6666 "@, "66    "@, "66666 "@, "66  66"@, " 6666 "@],
        '7' => seq!["777777"@, "   77 "@, "  77  "@, " 77   "@, "77    "@],
        '8' => seq![" 8888 "@, "88  88"@, " 8888 "@, "88  88"@, " 8888 "@],
        '9' => seq![" 9999 "@, "99  99"@, " 99999"@, "    99"@, " 9999 "@],
        ':' => seq!["      "@, "  ::  "@, "      "@, "  ::  "@, "      "@],
        _ => seq!["      "@, "      "@, "      "@, "      "@, "      "@],
    }
}

/// Every glyph has five rows of six characters, each of them a digit, a
/// colon or a space.
pub proof fn lemma_glyph_shape(digit: char)
    ensures
        digit_rows(digit).len() == GLYPH_HEIGHT,
        forall|row: int|
            0 <= row < GLYPH_HEIGHT ==> (#[trigger] digit_rows(digit)[row]).len() == GLYPH_WIDTH,
        forall|row: int, column: int|
            0 <= row < GLYPH_HEIGHT && 0 <= column < GLYPH_WIDTH ==> is_glyph_char(
                #[trigger] digit_rows(digit)[row][column],
            ),
{
    reveal_strlit("      ");
    reveal_strlit("    44");
    reveal_strlit("    55");
    reveal_strlit("    99");
    reveal_strlit("   11 ");
    reveal_strlit("   22 ");
    reveal_strlit("   333");
    reveal_strlit("   77 ");
    reveal_strlit("  22  ");
    reveal_strlit("  77  ");
    reveal_strlit("  ::  ");
    reveal_strlit(" 0000 ");
    reveal_strlit(" 1111 ");
    reveal_strlit(" 2222 ");
    reveal_strlit(" 3333 ");
    reveal_strlit(" 6666 ");
    reveal_strlit(" 77   ");
    reveal_strlit(" 8888 ");
    reveal_strlit(" 9999 ");
    reveal_strlit(" 99999");
    reveal_strlit("00  00");
    reveal_strlit("111111");
    reveal_strlit("22  22");
    reveal_strlit("222222");
    reveal_strlit("33  33");
    reveal_strlit("44  44");
    reveal_strlit("444444");
    reveal_strlit("55    ");
    reveal_strlit("55555 ");
    reveal_strlit("555555");
    reveal_strlit("66    ");
    reveal_strlit("66  66");
    reveal_strlit("66666 ");
    reveal_strlit("77    ");
    reveal_strlit("777777");
    reveal_strlit("88  88");
    reveal_strlit("99  99");
}

/// Characters without a glyph of their own are drawn as blanks.
pub proof fn lemma_unknown_glyph_is_blank(digit: char, row: int, column: int)
    requires
        !('0' <= digit <= '9'),
        digit != ':',
        0 <= row < GLYPH_HEIGHT,
        0 <= column < GLYPH_WIDTH,
    ensures
        digit_rows(digit)[row][column] == ' ',
{
    reveal_strlit("      ");
}

/// The glyph for `digit` as five rows of text.
pub fn get_digit_lines(digit: char) -> (lines: Vec<&'static str>)
    ensures
        lines@.len() == GLYPH_HEIGHT,
        forall|row: int|
            0 <= row < GLYPH_HEIGHT ==> (#[trigger] lines@[row])@ == digit_rows(digit)[row],
{
    match digit {
        '0' => vec![" 0000 ", "00  00", "00  00", "00  00", " 0000 "],
        '1' => vec![" 1111 ", "   11 ", "   11 ", "   11 ", "111111"],
        '2' => vec![" 2222 ", "22  22", "   22 ", "  22  ", "222222"],
        '3' => vec![" 3333 ", "33  33", "   333", "33  33", " 3333 "],
        '4' => vec!["44  44", "44  44", "444444", "    44", "    44"],
        '5' => vec!["555555", "55    ", "55555 ", "    55", "55555 "],
        '6' => vec![" 6666 ", "66    ", "66666 ", "66  66", " 6666 "],
        '7' => vec!["777777", "   77 ", "  77  ", " 77   ", "77    "],
        '8' => vec![" 8888 ", "88  88", " 8888 ", "88  88", " 8888 "],
        '9' => vec![" 9999 ", "99  99", " 99999", "    99", " 9999 "],
        ':' => vec!["      ", "  ::  ", "      ", "  ::  ", "      "],
        _ => vec!["      ", "      ", "      ", "      ", "      "],
    }
}

/// Row `row` of the display of `text`: for each character in turn, that row
/// of its glyph followed by one space.
pub open spec fn display_row(text: Seq<char>, row: int) -> Seq<char>
    decreases text.len(),
{
    if text.len() == 0 {
        Seq::empty()
    } else {
        display_row(text.drop_last(), row) + digit_rows(text.last())[row] + seq![' ']
    }
}

/// Each display row is seven characters wide for every character of the
/// text, and is made of digits, colons and spaces: it holds no line ending.
pub proof fn lemma_display_row_shape(text: Seq<char>, row: int)
    requires
        0 <= row < GLYPH_HEIGHT,
    ensures
        display_row(text, row).len() == (GLYPH_WIDTH + 1) * text.len(),
        forall|i: int|
            0 <= i < display_row(text, row).len() ==> is_glyph_char(
                #[trigger] display_row(text, row)[i],
            ),
        !display_row(text, row).contains('\n'),
        !display_row(text, row).contains('\r'),
    decreases text.len(),
{
    if text.len() > 0 {
        lemma_display_row_shape(text.drop_last(), row);
        lemma_glyph_shape(text.last());
        assert((GLYPH_WIDTH + 1) * text.len() == (GLYPH_WIDTH + 1) * (text.len() - 1) + GLYPH_WIDTH
            + 1) by (nonlinear_arith);
        let front = display_row(text.drop_last(), row);
        let glyph_row = digit_rows(text.last())[row];
        let whole = display_row(text, row);
        assert forall|i: int| 0 <= i < whole.len() implies is_glyph_char(#[trigger] whole[i]) by {
            if i < front.len() {
                assert(whole[i] == front[i]);
            } else if i < front.len() + glyph_row.len() {
                assert(whole[i] == glyph_row[i - front.len()]);
            }
        }
    }
}

/// Row `row` of the display of `time_str` as text.
fn display_line(time_str: &str, row: usize) -> (line: String)
    requires
        row < GLYPH_HEIGHT,
    ensures
        line@ == display_row(time_str@, row as int),
{
    let count = time_str.unicode_len();
    let mut line = String::new();
    let mut i: usize = 0;
    while i < count
        invariant
            row < GLYPH_HEIGHT,
            i <= count,
            count == time_str@.len(),
            line@ == display_row(time_str@.take(i as int), row as int),
        decreases count - i,
    {
        let digit_lines = get_digit_lines(time_str.get_char(i));
        line.append(digit_lines[row]);
        line.append(" ");
        proof {
            reveal_strlit(" ");
            let shown = time_str@.take(i as int + 1);
            assert(shown.drop_last() =~= time_str@.take(i as int));
            assert(shown.last() == time_str@[i as int]);
            assert(" "@ =~= seq![' ']);
        }
        i += 1;
    }
    assert(time_str@.take(count as int) =~= time_str@);
    line
}

/// The countdown text drawn in large glyphs: five rows, each the glyph rows
/// of the characters of `time_str` side by side, one space after each.
pub fn display_rows(time_str: &str) -> (lines: Vec<String>)
    ensures
        lines@.len() == GLYPH_HEIGHT,
        forall|row: int|
            0 <= row < GLYPH_HEIGHT ==> (#[trigger] lines@[row])@ == display_row(time_str@, row),
{
    let mut lines: Vec<String> = Vec::new();
    let mut row: usize = 0;
    while row < GLYPH_HEIGHT
        invariant
            row <= GLYPH_HEIGHT,
            lines@.len() == row,
            forall|r: int| 0 <= r < row ==> (#[trigger] lines@[r])@ == display_row(time_str@, r),
        decreases GLYPH_HEIGHT - row,
    {
        lines.push(display_line(time_str, row));
        row += 1;
    }
    lines
}

/// The countdown text drawn in large glyphs and coloured: five lines, the
/// text of each the display row of `time_str` of its place.
pub fn create_time_display_lines(time_str: &str, color: Color) -> (lines: Vec<Line<'static>>)
    ensures
        lines@.len() == GLYPH_HEIGHT,
        forall|row: int|
            0 <= row < GLYPH_HEIGHT ==> line_text(#[trigger] lines@[row]) == display_row(
                time_str@,
                row,
            ),
{
    let mut lines: Vec<Line<'static>> = Vec::new();
    let mut row: usize = 0;
    while row < GLYPH_HEIGHT
        invariant
            row <= GLYPH_HEIGHT,
            lines@.len() == row,
            forall|r: int|
                0 <= r < row ==> line_text(#[trigger] lines@[r]) == display_row(time_str@, r),
        decreases GLYPH_HEIGHT - row,
    {
        let text = display_line(time_str, row);
        proof {
            lemma_display_row_shape(time_str@, row as int);
        }
        lines.push(colored_line(text, color));
        row += 1;
    }
    lines
}

} // verus!
