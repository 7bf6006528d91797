//! Status-line composition: the styled segments painted on the row
//! `viewport_height - 2`, left to right — mode badge, separator, file
//! label, separator, space filler, separator, cursor-position badge.
//! This module only composes the segments as plain text plus colors; an
//! output collaborator paints them.

use vstd::prelude::*;

use crate::input::Mode;
use crate::session::{Editor, STATUS_RESERVED_ROWS};

verus! {

/// A color an output sink can render: the terminal's black, or a direct
/// RGB value.
#[derive(Clone, Copy, Debug, PartialEq, Eq, Structural)]
pub enum Color {
    Black,
    Rgb { r: u8, g: u8, b: u8 },
}

/// One status-line segment: its text, an optional foreground color
/// (`None` leaves the sink's default), and a background color.
#[derive(Debug, PartialEq, Eq)]
pub struct StyledSpan {
    pub text: String,
    pub fg: Option<Color>,
    pub bg: Color,
}

/// The accent color: badges and separator glyphs.
pub open spec fn accent_color() -> Color {
    Color::Rgb { r: 124u8, g: 245u8, b: 255u8 }
}

/// The secondary color: the file-label section background.
pub open spec fn secondary_color() -> Color {
    Color::Rgb { r: 100u8, g: 100u8, b: 100u8 }
}

/// The tertiary color: the filler section background.
pub open spec fn tertiary_color() -> Color {
    Color::Rgb { r: 30u8, g: 30u8, b: 30u8 }
}

/// The mode badge: the current mode's name padded with one space on each
/// side.
pub open spec fn spec_mode_badge(mode: Mode) -> Seq<char> {
    match mode {
        Mode::Normal => " NORMAL "@,
        Mode::Insert => " INSERT "@,
    }
}

/// The file/context label; a placeholder while the editor has no real
/// buffer behind it.
pub open spec fn spec_label() -> Seq<char> {
    " main.rs "@
}

/// The rightward-pointing separator glyph.
pub open spec fn spec_right_separator() -> Seq<char> {
    "\u{e0b0}"@
}

/// The leftward-pointing separator glyph.
pub open spec fn spec_left_separator() -> Seq<char> {
    "\u{e0b2}"@
}

/// The character for one decimal digit.
pub open spec fn digit_char(d: int) -> char
    recommends
        0 <= d < 10,
{
    if d == 0 {
        '0'
    } else if d == 1 {
        '1'
    } else if d == 2 {
        '2'
    } else if d == 3 {
        '3'
    } else if d == 4 {
        '4'
    } else if d == 5 {
        '5'
    } else if d == 6 {
        '6'
    } else if d == 7 {
        '7'
    } else if d == 8 {
        '8'
    } else {
        '9'
    }
}

/// The decimal rendering of a non-negative integer, most significant
/// digit first, with no leading zeros (a single `'0'` for zero).
pub open spec fn decimal_digits(n: int) -> Seq<char>
    recommends
        n >= 0,
    decreases n,
{
    if n < 10 {
        seq![digit_char(n)]
    } else {
        decimal_digits(n / 10) + seq![digit_char(n % 10)]
    }
}

/// The cursor-position badge: `" {x}:{y} "`.
pub open spec fn spec_cursor_badge(x: int, y: int) -> Seq<char> {
    seq![' '] + decimal_digits(x) + seq![':'] + decimal_digits(y) + seq![' ']
}

/// A run of `n` spaces.
pub open spec fn spaces(n: int) -> Seq<char> {
    Seq::new(if n >= 0 { n as nat } else { 0nat }, |i: int| ' ')
}

/// The filler width that right-pads the status line: the viewport width
/// minus the fixed segments (mode badge, label, two separators, cursor
/// badge), clamped to zero when the viewport is narrower than their sum.
pub open spec fn spec_fill_width(
    viewport_width: int,
    mode_badge_len: int,
    label_len: int,
    separator_len: int,
    cursor_badge_len: int,
) -> int {
    let fixed = mode_badge_len + label_len + 2 * separator_len + cursor_badge_len;
    if viewport_width >= fixed {
        viewport_width - fixed
    } else {
        0
    }
}

/// The filler width of a concrete status line, from its actual segment
/// lengths (all lengths in characters, one terminal cell each).
pub open spec fn spec_status_fill(mode: Mode, x: int, y: int, viewport_width: int) -> int {
    spec_fill_width(
        viewport_width,
        spec_mode_badge(mode).len() as int,
        spec_label().len() as int,
        spec_right_separator().len() as int,
        spec_cursor_badge(x, y).len() as int,
    )
}

/// What a rendered status line looks like: exactly seven segments, in
/// order — mode badge on accent, accent-on-secondary separator, label on
/// secondary, secondary-on-tertiary separator, filler on tertiary,
/// accent-on-tertiary separator, cursor badge on accent.
pub open spec fn status_line_ok(
    spans: Seq<StyledSpan>,
    mode: Mode,
    x: int,
    y: int,
    viewport_width: int,
) -> bool {
    &&& spans.len() == 7
    &&& spans[0].text@ == spec_mode_badge(mode)
    &&& spans[0].fg == Some(Color::Black)
    &&& spans[0].bg == accent_color()
    &&& spans[1].text@ == spec_right_separator()
    &&& spans[1].fg == Some(accent_color())
    &&& spans[1].bg == secondary_color()
    &&& spans[2].text@ == spec_label()
    &&& spans[2].fg == Some(accent_color())
    &&& spans[2].bg == secondary_color()
    &&& spans[3].text@ == spec_right_separator()
    &&& spans[3].fg == Some(secondary_color())
    &&& spans[3].bg == tertiary_color()
    &&& spans[4].text@ == spaces(spec_status_fill(mode, x, y, viewport_width))
    &&& spans[4].fg is None
    &&& spans[4].bg == tertiary_color()
    &&& spans[5].text@ == spec_left_separator()
    &&& spans[5].fg == Some(accent_color())
    &&& spans[5].bg == tertiary_color()
    &&& spans[6].text@ == spec_cursor_badge(x, y)
    &&& spans[6].fg == Some(Color::Black)
    &&& spans[6].bg == accent_color()
}

/// Appends the decimal rendering of `n` to `out`.
fn push_decimal(out: &mut String, n: u16)
    ensures
        final(out)@ == old(out)@ + decimal_digits(n as int),
    decreases n,
{
    if n >= 10 {
        push_decimal(out, n / 10);
    }
    let d: u16 = n % 10;
    let digit: &str = if d == 0 {
        "0"
    } else if d == 1 {
        "1"
    } else if d == 2 {
        "2"
    } else if d == 3 {
        "3"
    } else if d == 4 {
        "4"
    } else if d == 5 {
        "5"
    } else if d == 6 {
        "6"
    } else if d == 7 {
        "7"
    } else if d == 8 {
        "8"
    } else {
        "9"
    };
    proof {
        reveal_strlit("0");
        reveal_strlit("1");
        reveal_strlit("2");
        reveal_strlit("3");
        reveal_strlit("4");
        reveal_strlit("5");
        reveal_strlit("6");
        reveal_strlit("7");
        reveal_strlit("8");
        reveal_strlit("9");
        assert(digit@ =~= seq![digit_char(d as int)]);
    }
    out.append(digit);
    proof {
        if n < 10 {
            assert(out@ =~= old(out)@ + decimal_digits(n as int));
        } else {
            assert(decimal_digits(n as int) == decimal_digits(n as int / 10) + seq![
                digit_char(n as int % 10),
            ]);
            assert(out@ =~= old(out)@ + decimal_digits(n as int));
        }
    }
}

/// The number of decimal digits of `n`: between one and five for a
/// 16-bit value.
fn decimal_len(n: u16) -> (l: u16)
    ensures
        l as int == decimal_digits(n as int).len(),
        1 <= l <= 5,
    decreases n,
{
    if n < 10 {
        1
    } else {
        proof {
            lemma_decimal_digits_len(n as int);
        }
        1 + decimal_len(n / 10)
    }
}

/// The decimal rendering of a value below `10^k` has at most `k`
/// digits; in particular a 16-bit value has at most five.
pub proof fn lemma_decimal_digits_len(n: int)
    requires
        0 <= n,
    ensures
        1 <= decimal_digits(n).len(),
        n < 10 ==> decimal_digits(n).len() == 1,
        n < 100 ==> decimal_digits(n).len() <= 2,
        n < 1000 ==> decimal_digits(n).len() <= 3,
        n < 10000 ==> decimal_digits(n).len() <= 4,
        n < 100000 ==> decimal_digits(n).len() <= 5,
    decreases n,
{
    if n >= 10 {
        lemma_decimal_digits_len(n / 10);
    }
}

/// The clamped filler-width computation: the viewport width minus the
/// fixed segments' total, and zero — never an underflow — when the
/// viewport is narrower than that total.
pub fn fill_width(
    viewport_width: u16,
    mode_badge_len: u16,
    label_len: u16,
    separator_len: u16,
    cursor_badge_len: u16,
) -> (w: u16)
    ensures
        w as int == spec_fill_width(
            viewport_width as int,
            mode_badge_len as int,
            label_len as int,
            separator_len as int,
            cursor_badge_len as int,
        ),
{
    let fixed: u32 = mode_badge_len as u32 + label_len as u32 + 2 * (separator_len as u32)
        + cursor_badge_len as u32;
    if viewport_width as u32 >= fixed {
        (viewport_width as u32 - fixed) as u16
    } else {
        0
    }
}

/// The filler width for a concrete status line.
pub fn status_fill(mode: Mode, cursor_x: u16, cursor_y: u16, viewport_width: u16) -> (w: u16)
    ensures
        w as int == spec_status_fill(mode, cursor_x as int, cursor_y as int, viewport_width as int),
{
    proof {
        reveal_strlit(" NORMAL ");
        reveal_strlit(" INSERT ");
        reveal_strlit(" main.rs ");
        reveal_strlit("\u{e0b0}");
    }
    let x_len = decimal_len(cursor_x);
    let y_len = decimal_len(cursor_y);
    fill_width(viewport_width, 8, 9, 1, 3 + x_len + y_len)
}

/// A string of `n` spaces.
fn spaces_string(n: u16) -> (s: String)
    ensures
        s@ == spaces(n as int),
{
    let mut s = String::new();
    let mut i: u16 = 0;
    proof {
        assert(s@ =~= spaces(0));
    }
    while i < n
        invariant
            i <= n,
            s@ == spaces(i as int),
        decreases n - i,
    {
        s.append(" ");
        i = i + 1;
        proof {
            reveal_strlit(" ");
            assert(s@ =~= spaces(i as int));
        }
    }
    s
}

/// The cursor-position badge `" {x}:{y} "` as a string.
fn cursor_badge_string(x: u16, y: u16) -> (s: String)
    ensures
        s@ == spec_cursor_badge(x as int, y as int),
{
    let mut s = String::from_str(" ");
    push_decimal(&mut s, x);
    s.append(":");
    push_decimal(&mut s, y);
    s.append(" ");
    proof {
        reveal_strlit(" ");
        reveal_strlit(":");
        assert(s@ =~= spec_cursor_badge(x as int, y as int));
    }
    s
}

/// The mode badge as a string.
fn mode_badge_string(mode: Mode) -> (s: String)
    ensures
        s@ == spec_mode_badge(mode),
{
    match mode {
        Mode::Normal => String::from_str(" NORMAL "),
        Mode::Insert => String::from_str(" INSERT "),
    }
}

/// Composes the whole status line for the given mode, cursor position,
/// and viewport width: the seven styled segments, in paint order.
pub fn status_line(mode: Mode, cursor_x: u16, cursor_y: u16, viewport_width: u16) -> (spans: Vec<
    StyledSpan,
>)
    ensures
        status_line_ok(spans@, mode, cursor_x as int, cursor_y as int, viewport_width as int),
{
    let fill = status_fill(mode, cursor_x, cursor_y, viewport_width);
    let mut spans: Vec<StyledSpan> = Vec::new();
    spans.push(StyledSpan {
        text: mode_badge_string(mode),
        fg: Some(Color::Black),
        bg: Color::Rgb { r: 124, g: 245, b: 255 },
    });
    spans.push(StyledSpan {
        text: String::from_str("\u{e0b0}"),
        fg: Some(Color::Rgb { r: 124, g: 245, b: 255 }),
        bg: Color::Rgb { r: 100, g: 100, b: 100 },
    });
    spans.push(StyledSpan {
        text: String::from_str(" main.rs "),
        fg: Some(Color::Rgb { r: 124, g: 245, b: 255 }),
        bg: Color::Rgb { r: 100, g: 100, b: 100 },
    });
    spans.push(StyledSpan {
        text: String::from_str("\u{e0b0}"),
        fg: Some(Color::Rgb { r: 100, g: 100, b: 100 }),
        bg: Color::Rgb { r: 30, g: 30, b: 30 },
    });
    spans.push(StyledSpan {
        text: spaces_string(fill),
        fg: None,
        bg: Color::Rgb { r: 30, g: 30, b: 30 },
    });
    spans.push(StyledSpan {
        text: String::from_str("\u{e0b2}"),
        fg: Some(Color::Rgb { r: 124, g: 245, b: 255 }),
        bg: Color::Rgb { r: 30, g: 30, b: 30 },
    });
    spans.push(StyledSpan {
        text: cursor_badge_string(cursor_x, cursor_y),
        fg: Some(Color::Black),
        bg: Color::Rgb { r: 124, g: 245, b: 255 },
    });
    spans
}

impl Editor {
    /// The status line this session renders: seven segments built from
    /// the current mode, cursor, and viewport width.
    pub fn status_spans(&self) -> (spans: Vec<StyledSpan>)
        ensures
            status_line_ok(
                spans@,
                self.mode,
                self.cursor_x as int,
                self.cursor_y as int,
                self.viewport_width as int,
            ),
    {
        status_line(self.mode, self.cursor_x, self.cursor_y, self.viewport_width)
    }

    /// Where the status line is painted: column 1 of the first reserved
    /// row, `viewport_height - 2`.
    pub fn status_position(&self) -> (pos: (u16, u16))
        requires
            self.wf(),
        ensures
            pos.0 == 1,
            pos.1 == self.viewport_height - STATUS_RESERVED_ROWS,
    {
        (1, self.viewport_height - STATUS_RESERVED_ROWS)
    }
}

} // verus!

