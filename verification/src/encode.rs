//! The terminal writer's encoder: turns cells, rows and cursor motions into
//! the exact ANSI truecolor and cursor escape sequences the renderer emits.
use vstd::prelude::*;
use vstd::string::StringExecFns;
use crate::cell::{Rgb, TerminalCell};
use crate::raster::rows_view;

verus! {

/// The character for the decimal digit `d`.
pub open spec fn digit(d: nat) -> char {
    if d == 0 {
        '0'
    } else if d == 1 {
        '1'
    } else if d == 2 {
        '2'
    } else if d == 3 {
        '3'
    } else if d == 4 {
        '4'
    } else if d == 5 {
        '5'
    } else if d == 6 {
        '6'
    } else if d == 7 {
        '7'
    } else if d == 8 {
        '8'
    } else {
        '9'
    }
}

/// The decimal numeral of `n`, most significant digit first, no leading
/// zeroes (a single `0` for zero itself).
pub open spec fn dec_digits(n: nat) -> Seq<char>
    decreases n,
{
    if n < 10 {
        seq![digit(n)]
    } else {
        dec_digits(n / 10).push(digit(n % 10))
    }
}

/// Reset all attributes.
pub open spec fn reset_codes() -> Seq<char> {
    "\u{1b}[0m"@
}

/// Select a 24-bit foreground colour.
pub open spec fn fg_codes(c: Rgb) -> Seq<char> {
    "\u{1b}[38;2;"@ + dec_digits(c.r as nat) + ";"@ + dec_digits(c.g as nat) + ";"@ + dec_digits(
        c.b as nat,
    ) + "m"@
}

/// Select a 24-bit background colour.
pub open spec fn bg_codes(c: Rgb) -> Seq<char> {
    "\u{1b}[48;2;"@ + dec_digits(c.r as nat) + ";"@ + dec_digits(c.g as nat) + ";"@ + dec_digits(
        c.b as nat,
    ) + "m"@
}

/// The byte sequence for one cell: a transparent cell resets attributes and
/// prints a blank; a solid cell paints background and foreground with the one
/// colour under a full block; a lone half cell resets, sets the foreground
/// and prints its half block; a split cell sets the upper colour as
/// foreground and the lower as background under an upper half block.
pub open spec fn cell_codes(cell: TerminalCell) -> Seq<char> {
    match cell {
        TerminalCell::Transparent => reset_codes() + " "@,
        TerminalCell::Solid(c) => bg_codes(c) + fg_codes(c) + "X"@,
        TerminalCell::UpperHalf(c) => reset_codes() + fg_codes(c) + "\u{2580}"@,
        TerminalCell::LowerHalf(c) => reset_codes() + fg_codes(c) + "\u{2584}"@,
        TerminalCell::Split { upper, lower } => fg_codes(upper) + bg_codes(lower) + "\u{2580}"@,
    }
}

/// The cells of one row, concatenated left to right.
pub open spec fn cells_codes(row: Seq<TerminalCell>) -> Seq<char>
    decreases row.len(),
{
    if row.len() == 0 {
        Seq::empty()
    } else {
        cells_codes(row.drop_last()) + cell_codes(row.last())
    }
}

/// One full row: its cells, then a reset and a newline, so colour state
/// never leaks across rows.
pub open spec fn row_codes(row: Seq<TerminalCell>) -> Seq<char> {
    cells_codes(row) + reset_codes() + "\n"@
}

/// A whole frame: its rows, top to bottom.
pub open spec fn frame_codes(rows: Seq<Seq<TerminalCell>>) -> Seq<char>
    decreases rows.len(),
{
    if rows.len() == 0 {
        Seq::empty()
    } else {
        frame_codes(rows.drop_last()) + row_codes(rows.last())
    }
}

/// Make the cursor invisible.
pub open spec fn hide_cursor_codes() -> Seq<char> {
    "\u{1b}[?25l"@
}

/// Make the cursor visible again.
pub open spec fn show_cursor_codes() -> Seq<char> {
    "\u{1b}[?25h"@
}

/// Clear the whole screen.
pub open spec fn clear_screen_codes() -> Seq<char> {
    "\u{1b}[2J"@
}

/// Move the cursor to the home position.
pub open spec fn cursor_home_codes() -> Seq<char> {
    "\u{1b}[H"@
}

/// Move the cursor up `n` lines, to the beginning of the line.
pub open spec fn cursor_up_codes(n: u32) -> Seq<char> {
    "\u{1b}["@ + dec_digits(n as nat) + "F"@
}

/// The single character of the decimal digit `d`.
fn digit_str(d: u32) -> (r: &'static str)
    requires
        d < 10,
    ensures
        r@ == seq![digit(d as nat)],
{
    let r: &'static str = match d {
        0 => "0",
        1 => "1",
        2 => "2",
        3 => "3",
        4 => "4",
        5 => "5",
        6 => "6",
        7 => "7",
        8 => "8",
        _ => "9",
    };
    proof {
        reveal_strlit("0");
        reveal_strlit("1");
        reveal_strlit("2");
        reveal_strlit("3");
        reveal_strlit("4");
        reveal_strlit("5");
        reveal_strlit("6");
        reveal_strlit("7");
        reveal_strlit("8");
        reveal_strlit("9");
        assert(r@ =~= seq![digit(d as nat)]);
    }
    r
}

/// Append the decimal numeral of `n`.
pub fn push_decimal(out: &mut String, n: u32)
    ensures
        final(out)@ == old(out)@ + dec_digits(n as nat),
    decreases n,
{
    if n < 10 {
        out.append(digit_str(n));
    } else {
        push_decimal(out, n / 10);
        out.append(digit_str(n % 10));
        proof {
            assert(out@ =~= old(out)@ + dec_digits(n as nat));
        }
    }
}

/// Append the foreground-colour escape for `c`.
fn push_fg(out: &mut String, c: Rgb)
    ensures
        final(out)@ == old(out)@ + fg_codes(c),
{
    out.append("\u{1b}[38;2;");
    push_decimal(out, c.r as u32);
    out.append(";");
    push_decimal(out, c.g as u32);
    out.append(";");
    push_decimal(out, c.b as u32);
    out.append("m");
    proof {
        assert(out@ =~= old(out)@ + fg_codes(c));
    }
}

/// Append the background-colour escape for `c`.
fn push_bg(out: &mut String, c: Rgb)
    ensures
        final(out)@ == old(out)@ + bg_codes(c),
{
    out.append("\u{1b}[48;2;");
    push_decimal(out, c.r as u32);
    out.append(";");
    push_decimal(out, c.g as u32);
    out.append(";");
    push_decimal(out, c.b as u32);
    out.append("m");
    proof {
        assert(out@ =~= old(out)@ + bg_codes(c));
    }
}

/// Append the escape sequence of one cell.
pub fn encode_cell(out: &mut String, cell: &TerminalCell)
    ensures
        final(out)@ == old(out)@ + cell_codes(*cell),
{
    match cell {
        TerminalCell::Transparent => {
            out.append("\u{1b}[0m ");
        },
        TerminalCell::Solid(c) => {
            push_bg(out, *c);
            push_fg(out, *c);
            out.append("X");
        },
        TerminalCell::UpperHalf(c) => {
            out.append("\u{1b}[0m");
            push_fg(out, *c);
            out.append("\u{2580}");
        },
        TerminalCell::LowerHalf(c) => {
            out.append("\u{1b}[0m");
            push_fg(out, *c);
            out.append("\u{2584}");
        },
        TerminalCell::Split { upper, lower } => {
            push_fg(out, *upper);
            push_bg(out, *lower);
            out.append("\u{2580}");
        },
    }
    proof {
        reveal_strlit("\u{1b}[0m ");
        reveal_strlit("\u{1b}[0m");
        reveal_strlit(" ");
        assert(out@ =~= old(out)@ + cell_codes(*cell));
    }
}

/// Append one full row: its cells, a reset and a newline.
pub fn encode_row(out: &mut String, row: &Vec<TerminalCell>)
    ensures
        final(out)@ == old(out)@ + row_codes(row@),
{
    let ghost entry = out@;
    let mut i: usize = 0;
    while i < row.len()
        invariant
            i <= row@.len(),
            out@ == entry + cells_codes(row@.take(i as int)),
        decreases row@.len() - i,
    {
        encode_cell(out, &row[i]);
        proof {
            assert(row@.take(i as int + 1).drop_last() =~= row@.take(i as int));
            assert(row@.take(i as int + 1).last() == row@[i as int]);
            assert(out@ =~= entry + cells_codes(row@.take(i as int + 1)));
        }
        i += 1;
    }
    out.append("\u{1b}[0m\n");
    proof {
        assert(row@.take(row@.len() as int) =~= row@);
        reveal_strlit("\u{1b}[0m\n");
        reveal_strlit("\u{1b}[0m");
        reveal_strlit("\n");
        assert(out@ =~= entry + row_codes(row@));
    }
}

/// Encode a whole frame, top row first, as one byte sequence ready to be
/// written to the terminal.
pub fn encode_frame(rows: &Vec<Vec<TerminalCell>>) -> (r: String)
    ensures
        r@ == frame_codes(rows_view(rows@)),
{
    let mut out = String::new();
    let mut i: usize = 0;
    while i < rows.len()
        invariant
            i <= rows@.len(),
            out@ == frame_codes(rows_view(rows@).take(i as int)),
        decreases rows@.len() - i,
    {
        encode_row(&mut out, &rows[i]);
        proof {
            assert(rows_view(rows@).take(i as int + 1).drop_last() =~= rows_view(rows@).take(
                i as int,
            ));
            assert(rows_view(rows@).take(i as int + 1).last() == rows@[i as int]@);
            assert(out@ =~= frame_codes(rows_view(rows@).take(i as int + 1)));
        }
        i += 1;
    }
    proof {
        assert(rows_view(rows@).take(rows@.len() as int) =~= rows_view(rows@));
    }
    out
}

/// The escape string that hides the cursor.
pub fn hide_cursor_code() -> (r: String)
    ensures
        r@ == hide_cursor_codes(),
{
    "\u{1b}[?25l".to_owned()
}

/// The escape string that shows the cursor.
pub fn show_cursor_code() -> (r: String)
    ensures
        r@ == show_cursor_codes(),
{
    "\u{1b}[?25h".to_owned()
}

/// The escape string that clears the screen.
pub fn clear_screen_code() -> (r: String)
    ensures
        r@ == clear_screen_codes(),
{
    "\u{1b}[2J".to_owned()
}

/// The escape string that moves the cursor to the home position.
pub fn cursor_home_code() -> (r: String)
    ensures
        r@ == cursor_home_codes(),
{
    "\u{1b}[H".to_owned()
}

/// The escape string that moves the cursor up `n` lines, used to redraw the
/// next frame in place without scrolling.
pub fn cursor_up_code(n: u32) -> (r: String)
    ensures
        r@ == cursor_up_codes(n),
{
    let mut out = "\u{1b}[".to_owned();
    push_decimal(&mut out, n);
    out.append("F");
    proof {
        assert(out@ =~= cursor_up_codes(n));
    }
    out
}

} // verus!
