//! Drawing, recorded: widgets append drawing commands to a display list, and
//! whoever owns the real surface replays the list on it.
//!
//! Labels are set in a fixed-width font whose glyph cell is 8 by 16 pixels.

use vstd::prelude::*;
use crate::geometry::{clamp_i32, saturate_i32, Color, Point, Rect};

verus! {

/// Width of a glyph cell, in pixels.
pub const GLYPH_WIDTH: u32 = 8;

/// Height of a glyph cell and of a line of text, in pixels.
pub const LINE_HEIGHT: u32 = 16;

/// Background of a widget at rest.
pub const FACE_UP: u32 = 0xFFDC_DEE3;

/// Background of a widget that is hovered or open.
pub const FACE_DOWN: u32 = 0xFFCB_CDD2;

/// Colour of text and of dividing lines.
pub const INK: u32 = 0xFF00_0000;

/// One request to the drawing surface.
#[derive(Clone, Copy, Debug, PartialEq, Eq, Structural)]
pub enum DrawCommand {
    /// Fill `rect` with `color`.
    Rect { rect: Rect, color: Color },
    /// Draw the glyph of `c` with its top-left corner at `point`.
    Char { point: Point, c: char, color: Color },
    /// Draw a line one pixel wide from `start` to `end`.
    Line { start: Point, end: Point, color: Color },
}

/// Horizontal pen position, relative to the widget's corner, before the
/// character at index `i` of `text`: a line feed sends the pen back to
/// column 0, every other character moves it one glyph to the right.
pub open spec fn pen_x(text: Seq<char>, start: Point, i: int) -> int
    decreases i,
{
    if i <= 0 {
        start.x as int
    } else if text[i - 1] == '\n' {
        0
    } else {
        pen_x(text, start, i - 1) + GLYPH_WIDTH
    }
}

/// Vertical pen position before the character at index `i` of `text`:
/// every line feed moves the pen one line down.
pub open spec fn pen_y(text: Seq<char>, start: Point, i: int) -> int
    decreases i,
{
    if i <= 0 {
        start.y as int
    } else if text[i - 1] == '\n' {
        pen_y(text, start, i - 1) + LINE_HEIGHT
    } else {
        pen_y(text, start, i - 1)
    }
}

/// Whether the whole glyph cell whose corner is at `(x, y)` relative to
/// `rect` lies within the rectangle: it starts at or after the left and top
/// edges and ends at or before the right and bottom edges.
pub open spec fn glyph_fits(rect: Rect, x: int, y: int) -> bool {
    &&& 0 <= x
    &&& x + GLYPH_WIDTH <= rect.width
    &&& 0 <= y
    &&& y + LINE_HEIGHT <= rect.height
}

/// Surface position of the pen at `(x, y)` relative to `rect`.
pub open spec fn glyph_corner(rect: Rect, x: int, y: int) -> Point {
    Point { x: clamp_i32(rect.x + x) as i32, y: clamp_i32(rect.y + y) as i32 }
}

/// Whether the character at index `i` of `text` is drawn: it is no line
/// feed and its cell fits.
pub open spec fn glyph_shown(rect: Rect, text: Seq<char>, start: Point, i: int) -> bool {
    text[i] != '\n' && glyph_fits(rect, pen_x(text, start, i), pen_y(text, start, i))
}

/// The command that draws the character at index `i` of `text`.
pub open spec fn glyph_command(rect: Rect, text: Seq<char>, start: Point, color: Color, i: int) -> DrawCommand {
    DrawCommand::Char {
        point: glyph_corner(rect, pen_x(text, start, i), pen_y(text, start, i)),
        c: text[i],
        color,
    }
}

/// The commands that draw the first `n` characters of `text` inside `rect`,
/// the pen starting at `start` relative to the rectangle's corner. A
/// character whose cell does not fit is skipped, but still moves the pen.
pub open spec fn label_commands(rect: Rect, text: Seq<char>, start: Point, color: Color, n: int) -> Seq<
    DrawCommand,
>
    decreases n,
{
    if n <= 0 {
        Seq::empty()
    } else {
        let before = label_commands(rect, text, start, color, n - 1);
        if glyph_shown(rect, text, start, n - 1) {
            before.push(glyph_command(rect, text, start, color, n - 1))
        } else {
            before
        }
    }
}

/// How many of the first `n` characters of `text` are drawn.
pub open spec fn shown_count(rect: Rect, text: Seq<char>, start: Point, n: int) -> int
    decreases n,
{
    if n <= 0 {
        0
    } else if glyph_shown(rect, text, start, n - 1) {
        shown_count(rect, text, start, n - 1) + 1
    } else {
        shown_count(rect, text, start, n - 1)
    }
}

/// The count of drawn characters never goes down along the text.
proof fn lemma_shown_count_grows(rect: Rect, text: Seq<char>, start: Point, i: int, n: int)
    requires
        0 <= i <= n,
    ensures
        0 <= shown_count(rect, text, start, i) <= shown_count(rect, text, start, n),
        i < n && glyph_shown(rect, text, start, i) ==> shown_count(rect, text, start, i)
            < shown_count(rect, text, start, n),
    decreases n,
{
    if i < n {
        lemma_shown_count_grows(rect, text, start, i, n - 1);
    } else if n > 0 {
        lemma_shown_count_grows(rect, text, start, i - 1, n - 1);
    }
}

/// A label holds one command for each character that is drawn.
pub proof fn lemma_label_len(rect: Rect, text: Seq<char>, start: Point, color: Color, n: int)
    ensures
        label_commands(rect, text, start, color, n).len() == shown_count(rect, text, start, n),
    decreases n,
{
    if n > 0 {
        lemma_label_len(rect, text, start, color, n - 1);
    }
}

/// Every character that is no line feed and whose whole cell lies within
/// the rectangle is drawn, at its pen position, after the drawn characters
/// before it and before those after it.
pub proof fn lemma_shown_glyph_is_drawn(
    rect: Rect,
    text: Seq<char>,
    start: Point,
    color: Color,
    n: int,
    i: int,
)
    requires
        0 <= i < n,
        glyph_shown(rect, text, start, i),
    ensures
        0 <= shown_count(rect, text, start, i) < label_commands(rect, text, start, color, n).len(),
        label_commands(rect, text, start, color, n)[shown_count(rect, text, start, i)]
            == glyph_command(rect, text, start, color, i),
    decreases n,
{
    lemma_label_len(rect, text, start, color, n);
    lemma_label_len(rect, text, start, color, n - 1);
    lemma_shown_count_grows(rect, text, start, i, n);
    lemma_shown_count_grows(rect, text, start, i, n - 1);
    if i < n - 1 {
        lemma_shown_glyph_is_drawn(rect, text, start, color, n - 1, i);
    }
}

/// A label is drawn by glyph commands and nothing else: each command
/// draws a character of the text that is no line feed and whose whole
/// cell lies within the rectangle. The proof names that character.
pub proof fn lemma_label_holds_shown_glyphs_only(
    rect: Rect,
    text: Seq<char>,
    start: Point,
    color: Color,
    n: int,
    k: int,
) -> (i: int)
    requires
        0 <= k < label_commands(rect, text, start, color, n).len(),
    ensures
        0 <= i < n,
        glyph_shown(rect, text, start, i),
        shown_count(rect, text, start, i) == k,
        label_commands(rect, text, start, color, n)[k] == glyph_command(rect, text, start, color, i),
    decreases n,
{
    lemma_label_len(rect, text, start, color, n);
    lemma_label_len(rect, text, start, color, n - 1);
    if n <= 0 {
        0
    } else if k < label_commands(rect, text, start, color, n - 1).len() {
        lemma_label_holds_shown_glyphs_only(rect, text, start, color, n - 1, k)
    } else {
        n - 1
    }
}

/// The commands that draw all of `text` inside `rect`.
pub open spec fn label(rect: Rect, text: Seq<char>, start: Point, color: Color) -> Seq<DrawCommand> {
    label_commands(rect, text, start, color, text.len() as int)
}

/// A character that is skipped still moves the pen: up to the first line
/// feed, the pen stays on the starting row and has moved one glyph to the
/// right for each character before it, drawn or not.
pub proof fn lemma_pen_on_first_line(text: Seq<char>, start: Point, i: int)
    requires
        0 <= i <= text.len(),
        forall|k: int| 0 <= k < i ==> text[k] != '\n',
    ensures
        pen_x(text, start, i) == start.x + GLYPH_WIDTH * i,
        pen_y(text, start, i) == start.y,
    decreases i,
{
    if i > 0 {
        lemma_pen_on_first_line(text, start, i - 1);
    }
}

/// A line feed starts a new line at column 0, whatever column the label
/// started in, one line height below the line before.
pub proof fn lemma_pen_after_line_feed(text: Seq<char>, start: Point, i: int)
    requires
        0 <= i < text.len(),
        text[i] == '\n',
    ensures
        pen_x(text, start, i + 1) == 0,
        pen_y(text, start, i + 1) == pen_y(text, start, i) + LINE_HEIGHT,
{
}

/// A recording drawing surface: the commands issued so far, oldest first.
pub struct DisplayList {
    pub commands: Vec<DrawCommand>,
}

impl View for DisplayList {
    type V = Seq<DrawCommand>;

    open spec fn view(&self) -> Seq<DrawCommand> {
        self.commands@
    }
}

impl DisplayList {
    /// An empty list.
    pub fn new() -> (list: DisplayList)
        ensures
            list@ == Seq::<DrawCommand>::empty(),
    {
        DisplayList { commands: Vec::new() }
    }

    /// Records the filling of `rect`.
    pub fn rect(&mut self, rect: Rect, color: Color)
        ensures
            final(self)@ == old(self)@.push(DrawCommand::Rect { rect, color }),
    {
        self.commands.push(DrawCommand::Rect { rect, color });
    }

    /// Records the drawing of one glyph.
    pub fn char(&mut self, point: Point, c: char, color: Color)
        ensures
            final(self)@ == old(self)@.push(DrawCommand::Char { point, c, color }),
    {
        self.commands.push(DrawCommand::Char { point, c, color });
    }

    /// Records the drawing of a line.
    pub fn line(&mut self, start: Point, end: Point, color: Color)
        ensures
            final(self)@ == old(self)@.push(DrawCommand::Line { start, end, color }),
    {
        self.commands.push(DrawCommand::Line { start, end, color });
    }

    /// Records the drawing of `text` inside `rect`, the pen starting at
    /// `start` relative to the rectangle's corner.
    pub fn text(&mut self, rect: Rect, text: &str, start: Point, color: Color)
        ensures
            final(self)@ == old(self)@ + label(rect, text@, start, color),
    {
        // The pen, kept exact as long as a glyph could still fit. Beyond
        // the widest possible rectangle it only needs to stay beyond it.
        let mut x: i64 = start.x as i64;
        let mut y: i64 = start.y as i64;
        let mut glyphs: Vec<DrawCommand> = Vec::new();
        for c in it: text.chars()
            invariant
                it.seq() == text@,
                glyphs@ == label_commands(rect, text@, start, color, it.index() as int),
                x == pen_x(text@, start, it.index() as int) || (x > u32::MAX && pen_x(
                    text@,
                    start,
                    it.index() as int,
                ) > u32::MAX),
                y == pen_y(text@, start, it.index() as int) || (y > u32::MAX && pen_y(
                    text@,
                    start,
                    it.index() as int,
                ) > u32::MAX),
                i32::MIN <= x <= u32::MAX + GLYPH_WIDTH,
                i32::MIN <= y <= u32::MAX + LINE_HEIGHT,
        {
            if c == '\n' {
                x = 0;
                if y <= u32::MAX as i64 {
                    y = y + LINE_HEIGHT as i64;
                }
            } else {
                if x >= 0 && x + GLYPH_WIDTH as i64 <= rect.width as i64 && y >= 0 && y
                    + LINE_HEIGHT as i64 <= rect.height as i64 {
                    let corner = Point {
                        x: saturate_i32(rect.x as i64 + x),
                        y: saturate_i32(rect.y as i64 + y),
                    };
                    glyphs.push(DrawCommand::Char { point: corner, c, color });
                }
                if x <= u32::MAX as i64 {
                    x = x + GLYPH_WIDTH as i64;
                }
            }
        }
        self.commands.append(&mut glyphs);
    }
}

} // verus!
