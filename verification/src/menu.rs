//! The menu: a header that opens and closes a stack of entries.

use vstd::prelude::*;
use crate::action::Action;
use crate::entry::{Entry, EntryView, MenuEntry};
use crate::event::{check_set, Click, ClickTarget, Event, Response};
use crate::geometry::{Color, Point, Rect};
use crate::layout::{
    appended, lemma_heights_nonnegative, lemma_widest_bounds, slot, stack_bottom, stretched,
    text_width, widest, Append,
};
use crate::paint::{label, DisplayList, DrawCommand, FACE_DOWN, FACE_UP, GLYPH_WIDTH, INK};
use crate::separator::{Separator, SeparatorView};

verus! {

/// A drop-down menu.
///
/// The header is the menu's own rectangle. The entries are stacked below it
/// in the order in which they were appended; they are drawn, and offered
/// events, only while the menu is open.
pub struct Menu {
    rect: Rect,
    text: String,
    bg_up: Color,
    bg_down: Color,
    fg: Color,
    text_offset: Point,
    entries: Vec<MenuEntry>,
    pressed: bool,
    activated: bool,
}

/// What a menu is made of, as contracts see it.
pub struct MenuView {
    pub rect: Rect,
    pub text: Seq<char>,
    pub bg_up: Color,
    pub bg_down: Color,
    pub fg: Color,
    pub text_offset: Point,
    /// The entries, top to bottom.
    pub entries: Seq<EntryView>,
    /// A press is held: the menu will not close on the next release.
    pub pressed: bool,
    /// The menu is open.
    pub activated: bool,
}

/// What a menu answers to one event.
pub struct MenuResponse {
    /// The focus flag that came with the event, handed back as it was: a
    /// menu never takes or gives up focus.
    pub focused: bool,
    /// The clicks that the event completed: those on entries first, from
    /// the top down, then the one on the header, if any. The caller owes
    /// the click handler of each target one call, in this order.
    pub clicks: Vec<Click>,
}

/// Whether one of the first `n` of `entries` claims `event`.
pub open spec fn claimed_among(entries: Seq<EntryView>, event: Event, n: int) -> bool {
    exists|i: int| 0 <= i < n && #[trigger] entries[i].claims(event)
}

/// Whether `event` makes one of the first `n` of `entries` ask for a redraw.
pub open spec fn redrawn_among(entries: Seq<EntryView>, event: Event, n: int) -> bool {
    exists|i: int| 0 <= i < n && #[trigger] entries[i].redraws(event)
}

/// The clicks that `event` completes on the first `n` of `entries`, from
/// the top down.
pub open spec fn clicks_among(entries: Seq<EntryView>, event: Event, n: int) -> Seq<Click>
    decreases n,
{
    if n <= 0 {
        Seq::empty()
    } else {
        let before = clicks_among(entries, event, n - 1);
        match entries[n - 1].click(event) {
            Some(point) => before.push(
                Click { target: ClickTarget::Entry((n - 1) as usize), point },
            ),
            None => before,
        }
    }
}

/// What the first `n` of `entries` draw, from the top down.
pub open spec fn painted_among(entries: Seq<EntryView>, n: int) -> Seq<DrawCommand>
    decreases n,
{
    if n <= 0 {
        Seq::empty()
    } else {
        painted_among(entries, n - 1) + entries[n - 1].painted()
    }
}

impl MenuView {
    /// Whether the flags are in step: a closed menu holds no press.
    /// `Menu::new` makes such a menu, and no event leads out of this.
    pub open spec fn wf(self) -> bool {
        !self.activated ==> !self.pressed
    }

    /// Whether `event` is a pointer event that falls on the header.
    pub open spec fn over_header(self, event: Event) -> bool {
        event.is_pointer() && self.rect.spec_contains(event.position())
    }

    /// Whether an entry claims `event`. A closed menu does not offer events
    /// to its entries, so none does.
    pub open spec fn claimed(self, event: Event) -> bool {
        self.activated && claimed_among(self.entries, event, self.entries.len() as int)
    }

    /// Whether a press is held once the entries have seen `event`: an entry
    /// that claims the event puts the menu under a press of its own.
    pub open spec fn held(self, event: Event) -> bool {
        self.pressed || self.claimed(event)
    }

    /// Whether `event` opens the menu: the button is down on the header of
    /// a closed menu.
    pub open spec fn opens(self, event: Event) -> bool {
        self.over_header(event) && event.left_down() && !self.activated
    }

    /// Whether `event` closes the menu: the button is up, on the header or
    /// away from it, and no press is held.
    pub open spec fn closes(self, event: Event) -> bool {
        event.is_pointer() && !event.left_down() && self.activated && !self.held(event)
    }

    /// The entries after `event`: an open menu hands every event to every
    /// entry, a closed one to none.
    pub open spec fn entries_after(self, event: Event) -> Seq<EntryView> {
        if self.activated {
            Seq::new(self.entries.len(), |i: int| self.entries[i].after(event))
        } else {
            self.entries
        }
    }

    /// The menu after `event`.
    ///
    /// The entries come first. Then, on the header: the button going down
    /// flips the press and opens the menu; the button coming up closes it
    /// unless a press is held. Off the header, where no entry claimed the
    /// event: the button going down drops the press; the button coming up
    /// closes the menu unless a press is held. Where an entry claimed the
    /// event, only the press that it caused remains.
    pub open spec fn after(self, event: Event) -> MenuView {
        let entries = self.entries_after(event);
        let held = self.held(event);
        if !event.is_pointer() {
            MenuView { entries, pressed: held, ..self }
        } else if self.over_header(event) {
            if event.left_down() {
                MenuView { entries, pressed: !held, activated: true, ..self }
            } else if !held {
                MenuView { entries, pressed: false, activated: false, ..self }
            } else {
                MenuView { entries, pressed: true, ..self }
            }
        } else if self.claimed(event) {
            MenuView { entries, pressed: true, ..self }
        } else if event.left_down() {
            MenuView { entries, pressed: false, ..self }
        } else if !self.pressed {
            MenuView { entries, pressed: false, activated: false, ..self }
        } else {
            MenuView { entries, pressed: true, ..self }
        }
    }

    /// Whether the entry at `index` is offered events: the menu is open
    /// and has such an entry.
    pub open spec fn offers(self, index: int) -> bool {
        self.activated && 0 <= index < self.entries.len()
    }

    /// The menu after the entry at `index` alone has been offered `event`:
    /// the entry has taken its step, and the menu holds a press if the
    /// entry claimed the event. Nothing happens where the entry is not
    /// offered events.
    pub open spec fn after_entry(self, index: int, event: Event) -> MenuView {
        if self.offers(index) {
            MenuView {
                entries: self.entries.update(index, self.entries[index].after(event)),
                pressed: self.pressed || self.entries[index].claims(event),
                ..self
            }
        } else {
            self
        }
    }

    /// The menu after the first `n` entries have been offered `event`, from
    /// the top down.
    pub open spec fn after_entries(self, event: Event, n: int) -> MenuView
        decreases n,
    {
        if n <= 0 {
            self
        } else {
            self.after_entries(event, n - 1).after_entry(n - 1, event)
        }
    }

    /// The menu after the header's own step, the entries having had
    /// theirs; `claimed` tells whether one of them claimed the event.
    pub open spec fn after_header(self, event: Event, claimed: bool) -> MenuView {
        if !event.is_pointer() {
            self
        } else if self.over_header(event) {
            if event.left_down() {
                MenuView { pressed: !self.pressed, activated: true, ..self }
            } else if !self.pressed {
                MenuView { activated: false, ..self }
            } else {
                self
            }
        } else if claimed {
            self
        } else if event.left_down() {
            MenuView { pressed: false, ..self }
        } else if !self.pressed {
            MenuView { activated: false, ..self }
        } else {
            self
        }
    }

    /// The click that the header's own step completes on `event`, if any:
    /// the step opens the menu, or closes it from the header.
    pub open spec fn header_step_click(self, event: Event) -> Option<Point> {
        if self.over_header(event) && (if event.left_down() {
            !self.activated
        } else {
            self.activated && !self.pressed
        }) {
            Some(event.position().spec_relative_to(self.rect.origin()))
        } else {
            None
        }
    }

    /// Whether the header's own step on `event` calls for a redraw: it
    /// opens or closes the menu.
    pub open spec fn header_step_redraws(self, event: Event, claimed: bool) -> bool {
        self.after_header(event, claimed).activated != self.activated
    }

    /// Whether `event` completes a click on the header: it opens the menu,
    /// or it closes the menu from the header.
    pub open spec fn header_clicks(self, event: Event) -> bool {
        self.opens(event) || (self.over_header(event) && self.closes(event))
    }

    /// The click that `event` completes on the header, if any.
    pub open spec fn header_click(self, event: Event) -> Seq<Click> {
        if self.header_clicks(event) {
            seq![
                Click {
                    target: ClickTarget::Header,
                    point: event.position().spec_relative_to(self.rect.origin()),
                },
            ]
        } else {
            Seq::empty()
        }
    }

    /// The clicks that `event` completes on entries, from the top down.
    pub open spec fn entry_clicks(self, event: Event) -> Seq<Click> {
        if self.activated {
            clicks_among(self.entries, event, self.entries.len() as int)
        } else {
            Seq::empty()
        }
    }

    /// The clicks that `event` completes: those on entries, then the one
    /// on the header.
    pub open spec fn clicks(self, event: Event) -> Seq<Click> {
        self.entry_clicks(event) + self.header_click(event)
    }

    /// Whether `event` calls for a redraw: the menu opens or closes, or an
    /// entry that saw the event asks for one.
    pub open spec fn redraws(self, event: Event) -> bool {
        ||| self.opens(event)
        ||| self.closes(event)
        ||| self.activated && redrawn_among(self.entries, event, self.entries.len() as int)
    }

    /// The header's background: the darker one while the menu is open.
    pub open spec fn face(self) -> Color {
        if self.activated {
            self.bg_down
        } else {
            self.bg_up
        }
    }

    /// What the menu draws: the header's background and title, then, while
    /// the menu is open, every entry from the top down.
    pub open spec fn painted(self) -> Seq<DrawCommand> {
        let header = seq![DrawCommand::Rect { rect: self.rect, color: self.face() }] + label(
            self.rect,
            self.text,
            self.text_offset,
            self.fg,
        );
        if self.activated {
            header + painted_among(self.entries, self.entries.len() as int)
        } else {
            header
        }
    }

    /// The entries' rectangles, top to bottom.
    pub open spec fn rects(self) -> Seq<Rect> {
        Seq::new(self.entries.len(), |i: int| self.entries[i].rect())
    }

    /// The menu with `action` appended: `action` goes to the first free
    /// row, and the walk down the stack evens out widths against the width
    /// of its label.
    pub open spec fn with_action(self, action: EntryView) -> MenuView {
        let floor = text_width(action.text().len());
        MenuView {
            entries: Seq::new(
                self.entries.len(),
                |i: int| self.entries[i].with_rect(stretched(self.rects(), floor)[i]),
            ).push(action.with_rect(slot(self.rect, self.rects(), floor))),
            ..self
        }
    }

    /// The menu with `separator` appended: `separator` goes to the first
    /// free row and is as wide as the widest of the header and the entries;
    /// no entry is touched.
    pub open spec fn with_separator(self, separator: EntryView) -> MenuView {
        MenuView {
            entries: self.entries.push(
                separator.with_rect(slot(self.rect, self.rects(), self.rect.width as int)),
            ),
            ..self
        }
    }
}

/// Appending an action lays the entries out as `appended` says of an
/// action with a label of that length.
pub proof fn lemma_with_action_rects(menu: MenuView, action: EntryView)
    ensures
        menu.with_action(action).rects() == appended(
            menu.rect,
            menu.rects(),
            Append::Action { chars: action.text().len() },
        ),
{
    let floor = text_width(action.text().len());
    lemma_widest_bounds(menu.rects(), menu.rects().len() as int, floor);
    assert(menu.with_action(action).rects() =~= appended(
        menu.rect,
        menu.rects(),
        Append::Action { chars: action.text().len() },
    ));
}

/// Appending a separator lays the entries out as `appended` says of a
/// separator.
pub proof fn lemma_with_separator_rects(menu: MenuView, separator: EntryView)
    ensures
        menu.with_separator(separator).rects() == appended(
            menu.rect,
            menu.rects(),
            Append::Separator,
        ),
{
    assert(menu.with_separator(separator).rects() =~= appended(
        menu.rect,
        menu.rects(),
        Append::Separator,
    ));
}

/// `entries` once the first `n` of them have each taken their step on
/// `event`.
pub open spec fn stepped_entries(entries: Seq<EntryView>, event: Event, n: int) -> Seq<EntryView> {
    Seq::new(
        entries.len(),
        |j: int|
            if j < n {
                entries[j].after(event)
            } else {
                entries[j]
            },
    )
}

/// What the first `n` steps on entries add up to. A closed menu is left
/// as it was. In an open menu the first `n` entries have each taken their
/// step, the others have not, and a press is held if it was held before
/// or one of the first `n` entries claimed the event.
pub proof fn lemma_after_entries(menu: MenuView, event: Event, n: int)
    requires
        0 <= n <= menu.entries.len(),
    ensures
        !menu.activated ==> menu.after_entries(event, n) == menu,
        menu.activated ==> menu.after_entries(event, n) == (MenuView {
            entries: stepped_entries(menu.entries, event, n),
            pressed: menu.pressed || claimed_among(menu.entries, event, n),
            ..menu
        }),
    decreases n,
{
    if n > 0 {
        lemma_after_entries(menu, event, n - 1);
        if menu.activated {
            let before = menu.after_entries(event, n - 1);
            let after = menu.after_entries(event, n);
            assert(before.entries[n - 1] == menu.entries[n - 1]);
            assert(after.entries =~= stepped_entries(menu.entries, event, n));
            assert(claimed_among(menu.entries, event, n) == (claimed_among(
                menu.entries,
                event,
                n - 1,
            ) || menu.entries[n - 1].claims(event)));
        }
    } else if menu.activated {
        assert(menu.entries =~= stepped_entries(menu.entries, event, 0));
        assert(!claimed_among(menu.entries, event, 0));
    }
}

/// An event is the steps it is made of: offering it to every entry in
/// turn, from the top down, and then letting the header take its own step,
/// leaves the menu as `after` says, with the header's click that
/// `header_click` says and the header's redraw that `opens` and `closes`
/// say.
pub proof fn lemma_steps_make_the_event(menu: MenuView, event: Event)
    ensures
        ({
            let stepped = menu.after_entries(event, menu.entries.len() as int);
            &&& stepped.after_header(event, menu.claimed(event)) == menu.after(event)
            &&& stepped.header_step_click(event).is_some() == menu.header_clicks(event)
            &&& stepped.header_step_redraws(event, menu.claimed(event)) == (menu.opens(event)
                || menu.closes(event))
        }),
{
    lemma_after_entries(menu, event, menu.entries.len() as int);
    let stepped = menu.after_entries(event, menu.entries.len() as int);
    assert(stepped.after_header(event, menu.claimed(event)).entries =~= menu.after(event).entries);
}

/// No click comes from entries that the pointer is not on.
proof fn lemma_no_clicks_off_entries(entries: Seq<EntryView>, event: Event, n: int)
    requires
        n <= entries.len(),
        forall|i: int|
            0 <= i < n ==> !(event.is_pointer() && (#[trigger] entries[i]).rect().spec_contains(
                event.position(),
            )),
    ensures
        clicks_among(entries, event, n) == Seq::<Click>::empty(),
        !claimed_among(entries, event, n),
    decreases n,
{
    if n > 0 {
        lemma_no_clicks_off_entries(entries, event, n - 1);
        assert(entries[n - 1].click(event).is_none());
    }
}

/// A closed menu holds no press, whatever events it is given. `Menu::new`
/// makes a menu that is closed and holds none.
pub proof fn lemma_event_keeps_flags_in_step(menu: MenuView, event: Event)
    requires
        menu.wf(),
    ensures
        menu.after(event).wf(),
{
}

/// The entries of a closed menu are left alone: an event does not reach
/// them, none of them clicks, and none of them is drawn.
pub proof fn lemma_closed_menu_keeps_entries_out(menu: MenuView, event: Event)
    requires
        !menu.activated,
    ensures
        menu.after(event).entries == menu.entries,
        menu.entry_clicks(event) == Seq::<Click>::empty(),
        menu.painted() == seq![DrawCommand::Rect { rect: menu.rect, color: menu.bg_up }] + label(
            menu.rect,
            menu.text,
            menu.text_offset,
            menu.fg,
        ),
{
}

/// The entries of an open menu are all given every event, whatever it is
/// and wherever the pointer is, and are all drawn, from the top down, after
/// the header.
pub proof fn lemma_open_menu_reaches_every_entry(menu: MenuView, event: Event)
    requires
        menu.activated,
    ensures
        menu.after(event).entries.len() == menu.entries.len(),
        forall|i: int|
            0 <= i < menu.entries.len() ==> (#[trigger] menu.after(event).entries[i])
                == menu.entries[i].after(event),
        menu.painted() == seq![DrawCommand::Rect { rect: menu.rect, color: menu.bg_down }] + label(
            menu.rect,
            menu.text,
            menu.text_offset,
            menu.fg,
        ) + painted_among(menu.entries, menu.entries.len() as int),
{
}

/// Opening by a press and a release. The button going down on the header
/// of a closed menu opens it, with a click and a redraw, and leaves a
/// press held; the button coming up on the header right after neither
/// closes the menu again nor clicks.
pub proof fn lemma_press_opens_release_keeps_open(menu: MenuView, press: Event, release: Event)
    requires
        menu.wf(),
        !menu.activated,
        menu.over_header(press),
        press.left_down(),
        menu.over_header(release),
        !release.left_down(),
    ensures
        menu.after(press).activated,
        menu.after(press).pressed,
        menu.clicks(press) == seq![
            Click {
                target: ClickTarget::Header,
                point: press.position().spec_relative_to(menu.rect.origin()),
            },
        ],
        menu.redraws(press),
        menu.after(press).after(release).activated,
        menu.after(press).header_click(release) == Seq::<Click>::empty(),
{
}

/// Closing by a release elsewhere. The button coming up off the header
/// and off every entry closes an open menu that holds no press, with a
/// redraw and without any click.
pub proof fn lemma_release_elsewhere_closes(menu: MenuView, event: Event)
    requires
        menu.activated,
        !menu.pressed,
        event.is_pointer(),
        !event.left_down(),
        !menu.over_header(event),
        forall|i: int|
            0 <= i < menu.entries.len() ==> !(#[trigger] menu.entries[i]).rect().spec_contains(
                event.position(),
            ),
    ensures
        !menu.after(event).activated,
        !menu.after(event).pressed,
        menu.redraws(event),
        menu.clicks(event) == Seq::<Click>::empty(),
{
    lemma_no_clicks_off_entries(menu.entries, event, menu.entries.len() as int);
}

/// An entry that claims an event shields the menu. Off the header, the
/// menu then neither closes nor clicks, and is left holding a press; only
/// a separator under the pointer claims an event.
pub proof fn lemma_claimed_event_holds_press(menu: MenuView, event: Event)
    requires
        menu.claimed(event),
        !menu.over_header(event),
    ensures
        menu.after(event).activated,
        menu.after(event).pressed,
        menu.header_click(event) == Seq::<Click>::empty(),
        exists|i: int|
            0 <= i < menu.entries.len() && (#[trigger] menu.entries[i]) is Separator
                && menu.entries[i].rect().spec_contains(event.position()),
{
    let i = choose|i: int| 0 <= i < menu.entries.len() && #[trigger] menu.entries[i].claims(event);
    assert(menu.entries[i] is Separator);
}

/// An action does not shield the menu. A pointer event on an action of an
/// open menu, off the header and off every separator, reaches the action,
/// and the menu takes it as aimed elsewhere: with the button down the menu
/// drops its press and stays open; with the button up it closes unless a
/// press is held. The header does not click.
pub proof fn lemma_event_on_action_is_unclaimed(menu: MenuView, event: Event, i: int)
    requires
        menu.activated,
        0 <= i < menu.entries.len(),
        menu.entries[i] is Action,
        event.is_pointer(),
        menu.entries[i].rect().spec_contains(event.position()),
        !menu.over_header(event),
        forall|j: int|
            0 <= j < menu.entries.len() && (#[trigger] menu.entries[j]) is Separator
                ==> !menu.entries[j].rect().spec_contains(event.position()),
    ensures
        !menu.claimed(event),
        menu.after(event).entries[i] == menu.entries[i].after(event),
        event.left_down() ==> menu.after(event).activated && !menu.after(event).pressed,
        !event.left_down() ==> menu.after(event).activated == menu.pressed,
        menu.header_click(event) == Seq::<Click>::empty(),
{
    assert forall|j: int| 0 <= j < menu.entries.len() implies !(#[trigger] menu.entries[j].claims(
        event,
    )) by {
        if menu.entries[j] is Separator {
            assert(!menu.entries[j].rect().spec_contains(event.position()));
        }
    }
}

impl View for Menu {
    type V = MenuView;

    closed spec fn view(&self) -> MenuView {
        MenuView {
            rect: self.rect,
            text: self.text@,
            bg_up: self.bg_up,
            bg_down: self.bg_down,
            fg: self.fg,
            text_offset: self.text_offset,
            entries: Seq::new(self.entries@.len(), |i: int| self.entries@[i]@),
            pressed: self.pressed,
            activated: self.activated,
        }
    }
}

impl Menu {
    /// A closed menu titled `name`: of no size, at the origin, in the
    /// standard colours, without entries.
    pub fn new(name: &str) -> (menu: Menu)
        ensures
            menu@ == (MenuView {
                rect: Rect { x: 0, y: 0, width: 0, height: 0 },
                text: name@,
                bg_up: Color { data: FACE_UP },
                bg_down: Color { data: FACE_DOWN },
                fg: Color { data: INK },
                text_offset: Point { x: 0, y: 0 },
                entries: Seq::empty(),
                pressed: false,
                activated: false,
            }),
            menu@.wf(),
    {
        let menu = Menu {
            rect: Rect::default(),
            text: name.to_owned(),
            bg_up: Color::rgb(220, 222, 227),
            bg_down: Color::rgb(203, 205, 210),
            fg: Color::rgb(0, 0, 0),
            text_offset: Point::default(),
            entries: Vec::with_capacity(10),
            pressed: false,
            activated: false,
        };
        assert(menu@.entries =~= Seq::empty());
        menu
    }

    /// Appends `action` below the entries that are there, and evens out
    /// widths: see `MenuView::with_action`.
    pub fn add_action(&mut self, action: Action)
        ensures
            final(self)@ == old(self)@.with_action(EntryView::Action(action@)),
            final(self)@.rects() == appended(
                old(self)@.rect,
                old(self)@.rects(),
                Append::Action { chars: action@.text.len() },
            ),
    {
        let mut action = action;
        let header = self.rect;
        let label = action.text();
        let chars = label.as_str().unicode_len();
        let mut width: u32 = if chars > (u32::MAX / GLYPH_WIDTH) as usize {
            u32::MAX
        } else {
            chars as u32 * GLYPH_WIDTH
        };
        let ghost floor = text_width(label@.len());
        let ghost rects = self@.rects();
        let mut bottom: i64 = header.y as i64 + header.height as i64;
        if bottom > i32::MAX as i64 {
            bottom = i32::MAX as i64;
        }
        let n = self.entries.len();
        let mut i: usize = 0;
        while i < n
            invariant
                i <= n,
                n == old(self).entries@.len(),
                n == self.entries@.len(),
                rects == old(self)@.rects(),
                rects.len() == n,
                0 <= floor <= u32::MAX,
                width == widest(rects, i as int, floor),
                i32::MIN <= bottom <= i32::MAX,
                bottom == stack_bottom(header, rects, i as int) || (bottom == i32::MAX
                    && stack_bottom(header, rects, i as int) > i32::MAX),
                forall|j: int|
                    0 <= j < i ==> #[trigger] self.entries@[j]@ == old(self).entries@[j]@.with_rect(
                        stretched(rects, floor)[j],
                    ),
                forall|j: int| i <= j < n ==> #[trigger] self.entries@[j]@ == old(self).entries@[j]@,
                self.rect == old(self).rect,
                self.text == old(self).text,
                self.bg_up == old(self).bg_up,
                self.bg_down == old(self).bg_down,
                self.fg == old(self).fg,
                self.text_offset == old(self).text_offset,
                self.pressed == old(self).pressed,
                self.activated == old(self).activated,
            decreases n - i,
        {
            let mut entry_rect = self.entries[i].rect();
            assert(entry_rect == rects[i as int]);
            bottom = bottom + entry_rect.height as i64;
            if bottom > i32::MAX as i64 {
                bottom = i32::MAX as i64;
            }
            if entry_rect.width < width {
                entry_rect.width = width;
                self.entries[i].set_rect(entry_rect);
            } else {
                width = entry_rect.width;
            }
            i = i + 1;
        }
        proof {
            lemma_heights_nonnegative(rects, n as int);
            lemma_widest_bounds(rects, n as int, floor);
        }
        action.set_rect(Rect { x: header.x, y: bottom as i32, width, height: header.height });
        self.entries.push(MenuEntry::Action(action));
        assert(self@.entries =~= old(self)@.with_action(EntryView::Action(action@)).entries);
        proof {
            lemma_with_action_rects(old(self)@, EntryView::Action(action@));
        }
    }

    /// Appends a separator below the entries that are there: see
    /// `MenuView::with_separator`.
    pub fn add_separator(&mut self)
        ensures
            final(self)@ == old(self)@.with_separator(EntryView::Separator(SeparatorView::fresh())),
            final(self)@.rects() == appended(old(self)@.rect, old(self)@.rects(), Append::Separator),
    {
        let header = self.rect;
        let mut width: u32 = header.width;
        let ghost rects = self@.rects();
        let mut bottom: i64 = header.y as i64 + header.height as i64;
        if bottom > i32::MAX as i64 {
            bottom = i32::MAX as i64;
        }
        let n = self.entries.len();
        let mut i: usize = 0;
        while i < n
            invariant
                i <= n,
                n == self.entries@.len(),
                rects == self@.rects(),
                rects.len() == n,
                width == widest(rects, i as int, header.width as int),
                i32::MIN <= bottom <= i32::MAX,
                bottom == stack_bottom(header, rects, i as int) || (bottom == i32::MAX
                    && stack_bottom(header, rects, i as int) > i32::MAX),
            decreases n - i,
        {
            let entry_rect = self.entries[i].rect();
            assert(entry_rect == rects[i as int]);
            bottom = bottom + entry_rect.height as i64;
            if bottom > i32::MAX as i64 {
                bottom = i32::MAX as i64;
            }
            if entry_rect.width > width {
                width = entry_rect.width;
            }
            i = i + 1;
        }
        proof {
            lemma_heights_nonnegative(rects, n as int);
            lemma_widest_bounds(rects, n as int, header.width as int);
        }
        let mut separator = Separator::new();
        separator.set_rect(Rect { x: header.x, y: bottom as i32, width, height: header.height });
        self.entries.push(MenuEntry::Separator(separator));
        assert(self@.entries =~= old(self)@.with_separator(
            EntryView::Separator(SeparatorView::fresh()),
        ).entries);
        proof {
            lemma_with_separator_rects(old(self)@, EntryView::Separator(SeparatorView::fresh()));
        }
    }

    /// Replaces the title.
    pub fn text(self, text: &str) -> (menu: Menu)
        ensures
            menu@ == (MenuView { text: text@, ..self@ }),
    {
        let mut menu = self;
        menu.text = text.to_owned();
        menu
    }

    /// Sets where the title starts, relative to the header's top-left corner.
    pub fn text_offset(self, x: i32, y: i32) -> (menu: Menu)
        ensures
            menu@ == (MenuView { text_offset: Point { x, y }, ..self@ }),
    {
        let mut menu = self;
        menu.text_offset = Point::new(x, y);
        menu
    }

    /// The header's rectangle.
    pub fn rect(&self) -> (rect: Rect)
        ensures
            rect == self@.rect,
    {
        self.rect
    }

    /// Moves and resizes the header. Entries that are there stay where they
    /// are; entries appended later are stacked below the new header.
    pub fn set_rect(&mut self, rect: Rect)
        ensures
            final(self)@ == (MenuView { rect, ..old(self)@ }),
    {
        self.rect = rect;
    }

    /// Whether the menu is open.
    pub fn is_activated(&self) -> (activated: bool)
        ensures
            activated == self@.activated,
    {
        self.activated
    }

    /// Whether a press is held.
    pub fn is_pressed(&self) -> (pressed: bool)
        ensures
            pressed == self@.pressed,
    {
        self.pressed
    }

    /// The number of entries.
    pub fn len(&self) -> (n: usize)
        ensures
            n == self@.entries.len(),
    {
        self.entries.len()
    }

    /// The entry at `index`, counted from the top, if there is one.
    pub fn entry(&self, index: usize) -> (entry: Option<&MenuEntry>)
        ensures
            entry.is_some() == (index < self@.entries.len()),
            entry.is_some() ==> entry.unwrap()@ == self@.entries[index as int],
    {
        if index < self.entries.len() {
            Some(&self.entries[index])
        } else {
            None
        }
    }

    /// Moves and resizes the entry at `index`, counted from the top, and
    /// nothing else; without such an entry nothing happens. Layout is not
    /// redone: entries appended later are stacked below the entries as
    /// they then stand.
    pub fn set_entry_rect(&mut self, index: usize, rect: Rect)
        ensures
            index < old(self)@.entries.len() ==> final(self)@ == (MenuView {
                entries: old(self)@.entries.update(
                    index as int,
                    old(self)@.entries[index as int].with_rect(rect),
                ),
                ..old(self)@
            }),
            index >= old(self)@.entries.len() ==> final(self)@ == old(self)@,
    {
        if index < self.entries.len() {
            self.entries[index].set_rect(rect);
            assert(self@.entries =~= old(self)@.entries.update(
                index as int,
                old(self)@.entries[index as int].with_rect(rect),
            ));
        }
    }

    /// Draws the menu: see `MenuView::painted`.
    pub fn draw(&self, renderer: &mut DisplayList, focused: bool)
        ensures
            final(renderer)@ == old(renderer)@ + self@.painted(),
    {
        let rect = self.rect;
        if self.activated {
            renderer.rect(rect, self.bg_down);
        } else {
            renderer.rect(rect, self.bg_up);
        }
        renderer.text(rect, self.text.as_str(), self.text_offset, self.fg);
        let ghost header = seq![DrawCommand::Rect { rect: self@.rect, color: self@.face() }] + label(
            self@.rect,
            self@.text,
            self@.text_offset,
            self@.fg,
        );
        assert(renderer@ =~= old(renderer)@ + header);
        if self.activated {
            let n = self.entries.len();
            let mut i: usize = 0;
            while i < n
                invariant
                    i <= n,
                    n == self.entries@.len(),
                    renderer@ == old(renderer)@ + header + painted_among(self@.entries, i as int),
                decreases n - i,
            {
                self.entries[i].draw(renderer, focused);
                assert(self.entries@[i as int]@ == self@.entries[i as int]);
                assert(renderer@ =~= old(renderer)@ + header + painted_among(
                    self@.entries,
                    i + 1,
                ));
                i = i + 1;
            }
        }
        assert(renderer@ =~= old(renderer)@ + self@.painted());
    }

    /// Offers `event` to the entry at `index` alone, as the first part of
    /// `event` does for every entry in turn: see `MenuView::after_entry`.
    /// Returns the entry's answer; where the entry is not offered events,
    /// nothing happens and the answer is empty.
    pub fn entry_event(&mut self, index: usize, event: Event, focused: bool, redraw: &mut bool) -> (response:
        Response)
        ensures
            final(self)@ == old(self)@.after_entry(index as int, event),
            *final(redraw) == (*old(redraw) || (old(self)@.offers(index as int) && old(
                self,
            )@.entries[index as int].redraws(event))),
            response.consumed == (old(self)@.offers(index as int) && old(
                self,
            )@.entries[index as int].claims(event)),
            response.click == (if old(self)@.offers(index as int) {
                old(self)@.entries[index as int].click(event)
            } else {
                None
            }),
    {
        if self.activated && index < self.entries.len() {
            let response = self.entries[index].event(event, focused, redraw);
            if response.consumed {
                self.pressed = true;
            }
            assert(self@.entries =~= old(self)@.after_entry(index as int, event).entries);
            response
        } else {
            Response { consumed: false, click: None }
        }
    }

    /// Lets the header take its own step on `event`, as the second part of
    /// `event` does once the entries have had theirs: see
    /// `MenuView::after_header`. `claimed` tells whether an entry claimed
    /// the event. Returns the click that the step completed on the header.
    pub fn header_event(&mut self, event: Event, claimed: bool, redraw: &mut bool) -> (click: Option<
        Point,
    >)
        ensures
            final(self)@ == old(self)@.after_header(event, claimed),
            *final(redraw) == (*old(redraw) || old(self)@.header_step_redraws(event, claimed)),
            click == old(self)@.header_step_click(event),
    {
        let mut click: Option<Point> = None;
        match event {
            Event::Mouse { point, left_button, .. } => {
                let rect = self.rect;
                if rect.contains(point) {
                    if left_button {
                        self.pressed = !self.pressed;
                        if check_set(&mut self.activated, true) {
                            click = Some(point.relative_to(rect.point()));
                            *redraw = true;
                        }
                    } else {
                        if !self.pressed {
                            if check_set(&mut self.activated, false) {
                                click = Some(point.relative_to(rect.point()));
                                *redraw = true;
                            }
                        }
                    }
                } else {
                    if !claimed {
                        if left_button {
                            self.pressed = false;
                        } else {
                            if !self.pressed {
                                if check_set(&mut self.activated, false) {
                                    *redraw = true;
                                }
                            }
                        }
                    }
                }
            },
            _ => (),
        }
        click
    }

    /// Answers one event: see `MenuView::after` for the menu's new state.
    /// Asks for a redraw where the event calls for one, and reports the
    /// clicks that the event completed, in the order in which their
    /// handlers are owed a call: see `MenuView::clicks`.
    pub fn event(&mut self, event: Event, focused: bool, redraw: &mut bool) -> (response: MenuResponse)
        ensures
            final(self)@ == old(self)@.after(event),
            old(self)@.wf() ==> final(self)@.wf(),
            *final(redraw) == (*old(redraw) || old(self)@.redraws(event)),
            response.focused == focused,
            response.clicks@ == old(self)@.clicks(event),
    {
        let ghost before = self@;
        let mut ignore_event = false;
        let mut clicks: Vec<Click> = Vec::new();
        if self.activated {
            let n = self.entries.len();
            let mut i: usize = 0;
            while i < n
                invariant
                    i <= n,
                    n == before.entries.len(),
                    before == old(self)@,
                    before.activated,
                    self@ == before.after_entries(event, i as int),
                    ignore_event == claimed_among(before.entries, event, i as int),
                    *redraw == (*old(redraw) || redrawn_among(before.entries, event, i as int)),
                    clicks@ == clicks_among(before.entries, event, i as int),
                decreases n - i,
            {
                proof {
                    lemma_after_entries(before, event, i as int);
                }
                let response = self.entry_event(i, event, focused, redraw);
                if response.consumed {
                    ignore_event = true;
                }
                match response.click {
                    Some(point) => {
                        clicks.push(Click { target: ClickTarget::Entry(i), point });
                    },
                    None => {},
                }
                i = i + 1;
            }
        }
        proof {
            lemma_after_entries(before, event, before.entries.len() as int);
            lemma_steps_make_the_event(before, event);
        }
        let ghost entry_clicks = clicks@;
        match self.header_event(event, ignore_event, redraw) {
            Some(point) => {
                clicks.push(Click { target: ClickTarget::Header, point });
            },
            None => {},
        }
        assert(clicks@ =~= entry_clicks + before.header_click(event));
        MenuResponse { focused, clicks }
    }
}

} // verus!
