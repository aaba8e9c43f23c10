//! Input events and what a widget answers to one.

use vstd::prelude::*;
use crate::geometry::Point;

verus! {

/// One input event, as the owning window delivers it to every widget.
///
/// Only `Mouse` concerns the widgets of this crate; they let every other
/// event pass without any change of state.
#[derive(Clone, Copy, Debug, PartialEq, Eq, Structural)]
pub enum Event {
    /// The window was opened.
    Init,
    /// The pointer is at `point`, with the buttons in the given states.
    Mouse { point: Point, left_button: bool, middle_button: bool, right_button: bool },
    /// The wheel moved.
    Scroll { x: i32, y: i32 },
    /// A character was typed.
    Text { c: char },
    /// The window was resized.
    Resize { width: u32, height: u32 },
    /// Anything else.
    Unknown,
}

impl Event {
    /// A pointer event with only the left button's state of interest.
    pub fn mouse(point: Point, left_button: bool) -> (e: Event)
        ensures
            e == (Event::Mouse { point, left_button, middle_button: false, right_button: false }),
    {
        Event::Mouse { point, left_button, middle_button: false, right_button: false }
    }

    /// Whether this is a pointer event.
    pub open spec fn is_pointer(self) -> bool {
        self is Mouse
    }

    /// Where the pointer is; meaningful for pointer events only.
    pub open spec fn position(self) -> Point {
        self->point
    }

    /// Whether the left button is held; meaningful for pointer events only.
    pub open spec fn left_down(self) -> bool {
        self->left_button
    }
}

/// Writes `value` to `flag` and tells whether that changed it. Widgets set
/// their flags through this, and act on the change only: that makes them
/// edge-triggered.
pub fn check_set(flag: &mut bool, value: bool) -> (changed: bool)
    ensures
        *final(flag) == value,
        changed == (*old(flag) != value),
{
    if *flag != value {
        *flag = value;
        true
    } else {
        false
    }
}

/// What a leaf widget answers to one event.
#[derive(Clone, Copy, Debug, PartialEq, Eq, Structural)]
pub struct Response {
    /// Whether the widget claims the event, so that its container does not
    /// treat it as aimed at empty space.
    pub consumed: bool,
    /// The click that the event completed, if any, as the position of the
    /// pointer relative to the widget's top-left corner. The caller owes the
    /// widget's click handler one call with this position.
    pub click: Option<Point>,
}

/// What a click in a menu landed on.
#[derive(Clone, Copy, Debug, PartialEq, Eq, Structural)]
pub enum ClickTarget {
    /// The entry at this position, counted from the top.
    Entry(usize),
    /// The menu's own header.
    Header,
}

/// A click completed in a menu.
#[derive(Clone, Copy, Debug, PartialEq, Eq, Structural)]
pub struct Click {
    /// What was clicked.
    pub target: ClickTarget,
    /// The pointer's position relative to the top-left corner of what was
    /// clicked.
    pub point: Point,
}

} // verus!
