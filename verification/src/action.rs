//! The action: a labelled, clickable row.
//!
//! An action tracks the pointer with two flags, `hover` and `pressed`. A
//! click is a press on the action followed by a release on it; a press that
//! is dragged off before the release is dropped silently.

use vstd::prelude::*;
use crate::entry::Entry;
use crate::event::{check_set, Event, Response};
use crate::geometry::{Color, Point, Rect};
use crate::icon::Icon;
use crate::paint::{
    glyph_command, glyph_shown, label, lemma_label_holds_shown_glyphs_only, lemma_label_len,
    shown_count, DisplayList, DrawCommand, FACE_DOWN, FACE_UP, INK,
};

verus! {

/// A clickable row with a label and, optionally, an icon.
pub struct Action {
    rect: Rect,
    text: String,
    icon: Option<Icon>,
    bg_up: Color,
    bg_down: Color,
    fg: Color,
    text_offset: Point,
    pressed: bool,
    hover: bool,
}

/// What an action is made of, as contracts see it.
pub struct ActionView {
    pub rect: Rect,
    pub text: Seq<char>,
    pub icon: Option<Icon>,
    pub bg_up: Color,
    pub bg_down: Color,
    pub fg: Color,
    pub text_offset: Point,
    /// The left button went down on the action and has not come up since.
    pub pressed: bool,
    /// The pointer is over the action.
    pub hover: bool,
}

impl ActionView {
    /// Whether `event` is a pointer event that falls on the action.
    pub open spec fn hit(self, event: Event) -> bool {
        event.is_pointer() && self.rect.spec_contains(event.position())
    }

    /// The action after `event`.
    ///
    /// On the action, the pointer sets `hover`; the button going down sets
    /// `pressed`; the button coming up after a press completes a click,
    /// which clears both flags. Off the action, `hover` is cleared, and
    /// `pressed` with it once the button is up. Other events change nothing.
    pub open spec fn after(self, event: Event) -> ActionView {
        if !event.is_pointer() {
            self
        } else if self.hit(event) {
            if event.left_down() {
                ActionView { hover: true, pressed: true, ..self }
            } else if self.pressed {
                ActionView { hover: false, pressed: false, ..self }
            } else {
                ActionView { hover: true, ..self }
            }
        } else {
            if event.left_down() {
                ActionView { hover: false, ..self }
            } else {
                ActionView { hover: false, pressed: false, ..self }
            }
        }
    }

    /// Whether `event` completes a click: the button comes up on the action
    /// while the action is pressed.
    pub open spec fn clicks(self, event: Event) -> bool {
        self.hit(event) && !event.left_down() && self.pressed
    }

    /// The click that `event` completes, if any: the pointer's position
    /// relative to the action's top-left corner.
    pub open spec fn click(self, event: Event) -> Option<Point> {
        if self.clicks(event) {
            Some(event.position().spec_relative_to(self.rect.origin()))
        } else {
            None
        }
    }

    /// Whether `event` calls for a redraw: it does where it changes a flag.
    pub open spec fn redraws(self, event: Event) -> bool {
        self.after(event).hover != self.hover || self.after(event).pressed != self.pressed
    }

    /// The background in use: the darker one under the pointer.
    pub open spec fn face(self) -> Color {
        if self.hover {
            self.bg_down
        } else {
            self.bg_up
        }
    }

    /// What the action draws: its background, then its label. The icon is
    /// not drawn.
    pub open spec fn painted(self) -> Seq<DrawCommand> {
        seq![DrawCommand::Rect { rect: self.rect, color: self.face() }] + label(
            self.rect,
            self.text,
            self.text_offset,
            self.fg,
        )
    }
}

/// Hovering is edge-triggered. The pointer over an action that holds no
/// press, with the button up, asks for a redraw exactly where the action
/// was not hovered yet; the same event once more changes nothing and asks
/// for none.
pub proof fn lemma_hover_redraws_once(action: ActionView, event: Event)
    requires
        action.hit(event),
        !event.left_down(),
        !action.pressed,
    ensures
        action.redraws(event) == !action.hover,
        !action.after(event).redraws(event),
        action.after(event).after(event) == action.after(event),
{
}

/// A redraw is asked for exactly where a flag changes, so an event that
/// is delivered twice asks for none the second time, unless the first
/// delivery completed a click.
pub proof fn lemma_repeated_event_redraws_once(action: ActionView, event: Event)
    requires
        !action.clicks(event),
    ensures
        action.redraws(event) == (action.after(event) != action),
        !action.after(event).redraws(event),
{
}

/// A click takes a press that is released on the action: an event clicks
/// exactly where the button comes up over an action that holds a press,
/// and a press begins only with the button going down over the action.
pub proof fn lemma_click_needs_press_and_release_inside(action: ActionView, event: Event)
    ensures
        action.click(event).is_some() == (action.hit(event) && !event.left_down()
            && action.pressed),
        action.after(event).pressed && !action.pressed ==> action.hit(event) && event.left_down(),
{
}

/// A press that is dragged off the action before the button comes up does
/// not click: not when the button goes down on the action, not when the
/// pointer leaves it, and not when the button comes up off it. The action
/// is then at rest.
pub proof fn lemma_drag_off_drops_click(action: ActionView, press: Event, drag: Event, release: Event)
    requires
        action.hit(press),
        press.left_down(),
        drag.is_pointer(),
        !action.hit(drag),
        release.is_pointer(),
        !action.hit(release),
        !release.left_down(),
    ensures
        action.click(press).is_none(),
        action.after(press).click(drag).is_none(),
        action.after(press).after(drag).click(release).is_none(),
        !action.after(press).after(drag).after(release).pressed,
        !action.after(press).after(drag).after(release).hover,
{
}

/// An action draws one fill and then glyphs only: the first command fills
/// its rectangle with the background in use, and every further command
/// draws a character of the label that is no line feed and whose whole
/// cell lies within the rectangle. The proof names that character.
pub proof fn lemma_action_paints_a_fill_then_glyphs(action: ActionView, k: int) -> (i: int)
    requires
        1 <= k < action.painted().len(),
    ensures
        action.painted()[0] == (DrawCommand::Rect { rect: action.rect, color: action.face() }),
        action.painted().len() == 1 + shown_count(
            action.rect,
            action.text,
            action.text_offset,
            action.text.len() as int,
        ),
        0 <= i < action.text.len(),
        glyph_shown(action.rect, action.text, action.text_offset, i),
        action.painted()[k] == glyph_command(
            action.rect,
            action.text,
            action.text_offset,
            action.fg,
            i,
        ),
{
    lemma_label_len(
        action.rect,
        action.text,
        action.text_offset,
        action.fg,
        action.text.len() as int,
    );
    lemma_label_holds_shown_glyphs_only(
        action.rect,
        action.text,
        action.text_offset,
        action.fg,
        action.text.len() as int,
        k - 1,
    )
}

impl View for Action {
    type V = ActionView;

    closed spec fn view(&self) -> ActionView {
        ActionView {
            rect: self.rect,
            text: self.text@,
            icon: self.icon,
            bg_up: self.bg_up,
            bg_down: self.bg_down,
            fg: self.fg,
            text_offset: self.text_offset,
            pressed: self.pressed,
            hover: self.hover,
        }
    }
}

impl Action {
    /// An action labelled `text`: of no size, at the origin, in the standard
    /// colours, without an icon, at rest.
    pub fn new(text: &str) -> (action: Action)
        ensures
            action@ == (ActionView {
                rect: Rect { x: 0, y: 0, width: 0, height: 0 },
                text: text@,
                icon: None,
                bg_up: Color { data: FACE_UP },
                bg_down: Color { data: FACE_DOWN },
                fg: Color { data: INK },
                text_offset: Point { x: 0, y: 0 },
                pressed: false,
                hover: false,
            }),
    {
        Action {
            rect: Rect::default(),
            text: text.to_owned(),
            icon: None,
            bg_up: Color::rgb(220, 222, 227),
            bg_down: Color::rgb(203, 205, 210),
            fg: Color::rgb(0, 0, 0),
            text_offset: Point::default(),
            pressed: false,
            hover: false,
        }
    }

    /// Gives the action an icon. The icon is kept, and takes no part in
    /// layout or drawing.
    pub fn add_icon(self, icon: Icon) -> (action: Action)
        ensures
            action@ == (ActionView { icon: Some(icon), ..self@ }),
    {
        let mut action = self;
        action.icon = Some(icon);
        action
    }

    /// Sets where the label starts, relative to the action's top-left corner.
    pub fn text_offset(self, x: i32, y: i32) -> (action: Action)
        ensures
            action@ == (ActionView { text_offset: Point { x, y }, ..self@ }),
    {
        let mut action = self;
        action.text_offset = Point::new(x, y);
        action
    }

    /// The icon, if the action has one.
    pub fn icon(&self) -> (icon: Option<&Icon>)
        ensures
            icon.is_some() == self@.icon.is_some(),
            icon.is_some() ==> *icon.unwrap() == self@.icon.unwrap(),
    {
        self.icon.as_ref()
    }

    /// Whether the pointer is over the action.
    pub fn is_hovered(&self) -> (hover: bool)
        ensures
            hover == self@.hover,
    {
        self.hover
    }

    /// Whether a press on the action is under way.
    pub fn is_pressed(&self) -> (pressed: bool)
        ensures
            pressed == self@.pressed,
    {
        self.pressed
    }

    /// Draws the action.
    pub fn draw(&self, renderer: &mut DisplayList, _focused: bool)
        ensures
            final(renderer)@ == old(renderer)@ + self@.painted(),
    {
        let rect = self.rect;
        if self.hover {
            renderer.rect(rect, self.bg_down);
        } else {
            renderer.rect(rect, self.bg_up);
        }
        renderer.text(rect, self.text.as_str(), self.text_offset, self.fg);
        assert(renderer@ =~= old(renderer)@ + self@.painted());
    }

    /// Answers one event: moves the flags as `ActionView::after` says, asks
    /// for a redraw where a flag changed, and reports the click that the
    /// event completed. An action never claims an event.
    pub fn event(&mut self, event: Event, _focused: bool, redraw: &mut bool) -> (response: Response)
        ensures
            final(self)@ == old(self)@.after(event),
            *final(redraw) == (*old(redraw) || old(self)@.redraws(event)),
            !response.consumed,
            response.click == old(self)@.click(event),
    {
        let mut click: Option<Point> = None;
        match event {
            Event::Mouse { point, left_button, .. } => {
                let rect = self.rect;
                if rect.contains(point) {
                    if check_set(&mut self.hover, true) {
                        *redraw = true;
                    }
                    if left_button {
                        if check_set(&mut self.pressed, true) {
                            *redraw = true;
                        }
                    } else {
                        if check_set(&mut self.pressed, false) {
                            click = Some(point.relative_to(rect.point()));
                            self.hover = false;
                            *redraw = true;
                        }
                    }
                } else {
                    if check_set(&mut self.hover, false) {
                        *redraw = true;
                    }
                    if !left_button {
                        if check_set(&mut self.pressed, false) {
                            *redraw = true;
                        }
                    }
                }
            },
            _ => (),
        }
        Response { consumed: false, click }
    }
}

impl Entry for Action {
    open spec fn spec_text(&self) -> Seq<char> {
        self@.text
    }

    open spec fn spec_rect(&self) -> Rect {
        self@.rect
    }

    fn text(&mut self) -> (text: String)
        ensures
            final(self)@ == old(self)@,
    {
        self.text.clone()
    }

    fn rect(&self) -> (rect: Rect) {
        self.rect
    }

    fn set_rect(&mut self, rect: Rect)
        ensures
            final(self)@ == (ActionView { rect, ..old(self)@ }),
    {
        self.rect = rect;
    }
}

} // verus!
