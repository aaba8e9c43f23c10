//! The separator: a horizontal divider between the entries of a menu.

use vstd::prelude::*;
use crate::entry::Entry;
use crate::event::{Event, Response};
use crate::geometry::{clamp_i32, saturate_i32, Color, Point, Rect};
use crate::paint::{DisplayList, DrawCommand, FACE_UP, INK};

verus! {

/// A divider row. It has no state but its place, and never reacts to the
/// pointer; it only tells its container when the pointer is over it.
pub struct Separator {
    rect: Rect,
    bg: Color,
    fg: Color,
}

/// What a separator is made of, as contracts see it.
pub struct SeparatorView {
    pub rect: Rect,
    pub bg: Color,
    pub fg: Color,
}

impl SeparatorView {
    /// A separator as `Separator::new` makes it: of no size, at the origin,
    /// in the standard colours.
    pub open spec fn fresh() -> SeparatorView {
        SeparatorView {
            rect: Rect { x: 0, y: 0, width: 0, height: 0 },
            bg: Color { data: FACE_UP },
            fg: Color { data: INK },
        }
    }

    /// Whether the separator claims `event`: the pointer is over it.
    pub open spec fn claims(self, event: Event) -> bool {
        event.is_pointer() && self.rect.spec_contains(event.position())
    }

    /// The row of the dividing line: halfway down the rectangle.
    pub open spec fn line_y(self) -> int {
        clamp_i32(self.rect.y + self.rect.height / 2)
    }

    /// What the separator draws: its background, then a line across its
    /// whole width at mid-height.
    pub open spec fn painted(self) -> Seq<DrawCommand> {
        seq![
            DrawCommand::Rect { rect: self.rect, color: self.bg },
            DrawCommand::Line {
                start: Point { x: self.rect.x, y: self.line_y() as i32 },
                end: Point {
                    x: clamp_i32(self.rect.x + self.rect.width) as i32,
                    y: self.line_y() as i32,
                },
                color: self.fg,
            },
        ]
    }
}

impl View for Separator {
    type V = SeparatorView;

    closed spec fn view(&self) -> SeparatorView {
        SeparatorView { rect: self.rect, bg: self.bg, fg: self.fg }
    }
}

impl Separator {
    /// A separator of no size at the origin, in the standard colours.
    pub fn new() -> (separator: Separator)
        ensures
            separator@ == SeparatorView::fresh(),
    {
        Separator { rect: Rect::default(), bg: Color::rgb(220, 222, 227), fg: Color::rgb(0, 0, 0) }
    }

    /// Draws the separator.
    pub fn draw(&self, renderer: &mut DisplayList, _focused: bool)
        ensures
            final(renderer)@ == old(renderer)@ + self@.painted(),
    {
        let rect = self.rect;
        renderer.rect(rect, self.bg);
        let line_y = saturate_i32(rect.y as i64 + (rect.height / 2) as i64);
        let start = Point::new(rect.x, line_y);
        let end = Point::new(saturate_i32(rect.x as i64 + rect.width as i64), line_y);
        renderer.line(start, end, self.fg);
        assert(renderer@ =~= old(renderer)@ + self@.painted());
    }

    /// Answers one event. A separator claims a pointer event that falls on
    /// it and nothing else; it never changes, never asks for a redraw and
    /// never clicks.
    pub fn event(&self, event: Event, _focused: bool, redraw: &mut bool) -> (response: Response)
        ensures
            response.consumed == self@.claims(event),
            response.click.is_none(),
            *final(redraw) == *old(redraw),
    {
        let mut ignore_event = false;
        match event {
            Event::Mouse { point, .. } => {
                if self.rect.contains(point) {
                    ignore_event = true;
                }
            },
            _ => (),
        }
        Response { consumed: ignore_event, click: None }
    }
}

impl Entry for Separator {
    open spec fn spec_text(&self) -> Seq<char> {
        Seq::empty()
    }

    open spec fn spec_rect(&self) -> Rect {
        self@.rect
    }

    fn text(&mut self) -> (text: String)
        ensures
            final(self)@ == old(self)@,
    {
        String::new()
    }

    fn rect(&self) -> (rect: Rect) {
        self.rect
    }

    fn set_rect(&mut self, rect: Rect)
        ensures
            final(self)@ == (SeparatorView { rect, ..old(self)@ }),
    {
        self.rect = rect;
    }
}

} // verus!
