//! Entries: the rows of an open menu.
//!
//! `Entry` is what a menu needs of a row to lay it out: a label to measure
//! and a rectangle to place. `MenuEntry` is the closed set of rows that a
//! menu holds.

use vstd::prelude::*;
use crate::action::{Action, ActionView};
use crate::event::{Event, Response};
use crate::geometry::{Point, Rect};
use crate::paint::{DisplayList, DrawCommand};
use crate::separator::{Separator, SeparatorView};

verus! {

/// A row that a menu can lay out.
pub trait Entry {
    /// The label, as contracts see it.
    spec fn spec_text(&self) -> Seq<char>;

    /// The rectangle, as contracts see it.
    spec fn spec_rect(&self) -> Rect;

    /// The label to measure. An implementation may cache while computing
    /// it, but the label and the rectangle stay what they were.
    fn text(&mut self) -> (text: String)
        ensures
            text@ == old(self).spec_text(),
            final(self).spec_text() == old(self).spec_text(),
            final(self).spec_rect() == old(self).spec_rect(),
    ;

    /// The rectangle that the row occupies and is hit-tested against.
    fn rect(&self) -> (rect: Rect)
        ensures
            rect == self.spec_rect(),
    ;

    /// Moves and resizes the row. The label stays what it was.
    fn set_rect(&mut self, rect: Rect)
        ensures
            final(self).spec_rect() == rect,
            final(self).spec_text() == old(self).spec_text(),
    ;
}

/// One row of a menu.
pub enum MenuEntry {
    Action(Action),
    Separator(Separator),
}

/// A row of a menu, as contracts see it.
pub enum EntryView {
    Action(ActionView),
    Separator(SeparatorView),
}

impl EntryView {
    /// The row's rectangle.
    pub open spec fn rect(self) -> Rect {
        match self {
            EntryView::Action(action) => action.rect,
            EntryView::Separator(separator) => separator.rect,
        }
    }

    /// The row's label; a separator has none.
    pub open spec fn text(self) -> Seq<char> {
        match self {
            EntryView::Action(action) => action.text,
            EntryView::Separator(_) => Seq::empty(),
        }
    }

    /// The same row in another place.
    pub open spec fn with_rect(self, rect: Rect) -> EntryView {
        match self {
            EntryView::Action(action) => EntryView::Action(ActionView { rect, ..action }),
            EntryView::Separator(separator) => EntryView::Separator(
                SeparatorView { rect, ..separator },
            ),
        }
    }

    /// Whether the row claims `event`. Only a separator under the pointer
    /// does.
    pub open spec fn claims(self, event: Event) -> bool {
        match self {
            EntryView::Action(_) => false,
            EntryView::Separator(separator) => separator.claims(event),
        }
    }

    /// The row after `event`.
    pub open spec fn after(self, event: Event) -> EntryView {
        match self {
            EntryView::Action(action) => EntryView::Action(action.after(event)),
            EntryView::Separator(_) => self,
        }
    }

    /// The click that `event` completes on the row, if any.
    pub open spec fn click(self, event: Event) -> Option<Point> {
        match self {
            EntryView::Action(action) => action.click(event),
            EntryView::Separator(_) => None,
        }
    }

    /// Whether `event` makes the row ask for a redraw.
    pub open spec fn redraws(self, event: Event) -> bool {
        match self {
            EntryView::Action(action) => action.redraws(event),
            EntryView::Separator(_) => false,
        }
    }

    /// What the row draws.
    pub open spec fn painted(self) -> Seq<DrawCommand> {
        match self {
            EntryView::Action(action) => action.painted(),
            EntryView::Separator(separator) => separator.painted(),
        }
    }
}

impl View for MenuEntry {
    type V = EntryView;

    open spec fn view(&self) -> EntryView {
        match self {
            MenuEntry::Action(action) => EntryView::Action(action@),
            MenuEntry::Separator(separator) => EntryView::Separator(separator@),
        }
    }
}

impl Entry for MenuEntry {
    open spec fn spec_text(&self) -> Seq<char> {
        self@.text()
    }

    open spec fn spec_rect(&self) -> Rect {
        self@.rect()
    }

    fn text(&mut self) -> (text: String)
        ensures
            final(self)@ == old(self)@,
    {
        match self {
            MenuEntry::Action(action) => action.text(),
            MenuEntry::Separator(separator) => separator.text(),
        }
    }

    fn rect(&self) -> (rect: Rect) {
        match self {
            MenuEntry::Action(action) => action.rect(),
            MenuEntry::Separator(separator) => separator.rect(),
        }
    }

    fn set_rect(&mut self, rect: Rect)
        ensures
            final(self)@ == old(self)@.with_rect(rect),
    {
        match self {
            MenuEntry::Action(action) => action.set_rect(rect),
            MenuEntry::Separator(separator) => separator.set_rect(rect),
        }
    }
}

impl MenuEntry {
    /// Draws the row.
    pub fn draw(&self, renderer: &mut DisplayList, focused: bool)
        ensures
            final(renderer)@ == old(renderer)@ + self@.painted(),
    {
        match self {
            MenuEntry::Action(action) => action.draw(renderer, focused),
            MenuEntry::Separator(separator) => separator.draw(renderer, focused),
        }
    }

    /// Hands `event` to the row and returns its answer.
    pub fn event(&mut self, event: Event, focused: bool, redraw: &mut bool) -> (response: Response)
        ensures
            final(self)@ == old(self)@.after(event),
            *final(redraw) == (*old(redraw) || old(self)@.redraws(event)),
            response.consumed == old(self)@.claims(event),
            response.click == old(self)@.click(event),
    {
        match self {
            MenuEntry::Action(action) => action.event(event, focused, redraw),
            MenuEntry::Separator(separator) => separator.event(event, focused, redraw),
        }
    }
}

} // verus!
