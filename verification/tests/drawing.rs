use dropdown_menu::paint::{FACE_DOWN, FACE_UP, INK};
use dropdown_menu::{
    Action, Color, DisplayList, DrawCommand, Entry, Event, Menu, Point, Rect, Separator,
};

fn face_up() -> Color {
    Color { data: FACE_UP }
}

fn face_down() -> Color {
    Color { data: FACE_DOWN }
}

fn ink() -> Color {
    Color { data: INK }
}

fn glyph(x: i32, y: i32, c: char) -> DrawCommand {
    DrawCommand::Char { point: Point::new(x, y), c, color: ink() }
}

fn drawn_by_action(action: &Action) -> Vec<DrawCommand> {
    let mut list = DisplayList::new();
    action.draw(&mut list, false);
    list.commands
}

fn drawn_by_menu(menu: &Menu) -> Vec<DrawCommand> {
    let mut list = DisplayList::new();
    menu.draw(&mut list, false);
    list.commands
}

#[test]
fn standard_colours_are_the_documented_ones() {
    assert_eq!(Color::rgb(220, 222, 227), face_up());
    assert_eq!(Color::rgb(203, 205, 210), face_down());
    assert_eq!(Color::rgb(0, 0, 0), ink());
    assert_eq!(Color::rgb(1, 2, 3).data, 0xFF01_0203);
}

#[test]
fn display_list_records_in_order() {
    let mut list = DisplayList::new();
    list.rect(Rect::new(1, 2, 3, 4), face_up());
    list.char(Point::new(5, 6), 'x', ink());
    list.line(Point::new(7, 8), Point::new(9, 8), ink());
    assert_eq!(
        list.commands,
        vec![
            DrawCommand::Rect { rect: Rect::new(1, 2, 3, 4), color: face_up() },
            DrawCommand::Char { point: Point::new(5, 6), c: 'x', color: ink() },
            DrawCommand::Line { start: Point::new(7, 8), end: Point::new(9, 8), color: ink() },
        ]
    );
}

#[test]
fn separator_draws_its_background_and_a_line_at_mid_height() {
    let mut separator = Separator::new();
    separator.set_rect(Rect::new(10, 40, 100, 21));
    let mut list = DisplayList::new();
    separator.draw(&mut list, false);
    assert_eq!(
        list.commands,
        vec![
            DrawCommand::Rect { rect: Rect::new(10, 40, 100, 21), color: face_up() },
            DrawCommand::Line { start: Point::new(10, 50), end: Point::new(110, 50), color: ink() },
        ]
    );
}

#[test]
fn separator_line_stays_in_the_coordinate_range() {
    let mut separator = Separator::new();
    separator.set_rect(Rect::new(i32::MAX - 5, i32::MAX - 5, 100, 100));
    let mut list = DisplayList::new();
    separator.draw(&mut list, false);
    assert_eq!(
        list.commands[1],
        DrawCommand::Line {
            start: Point::new(i32::MAX - 5, i32::MAX),
            end: Point::new(i32::MAX, i32::MAX),
            color: ink(),
        }
    );
}

#[test]
fn separator_draw_adds_to_what_is_there() {
    let mut list = DisplayList::new();
    list.char(Point::new(0, 0), 'x', ink());
    Separator::new().draw(&mut list, true);
    assert_eq!(list.commands.len(), 3);
    assert_eq!(list.commands[0], glyph(0, 0, 'x'));
}

#[test]
fn action_draws_its_background_then_its_label() {
    let mut action = Action::new("Hi");
    action.set_rect(Rect::new(10, 20, 16, 16));
    assert_eq!(
        drawn_by_action(&action),
        vec![
            DrawCommand::Rect { rect: Rect::new(10, 20, 16, 16), color: face_up() },
            glyph(10, 20, 'H'),
            glyph(18, 20, 'i'),
        ]
    );
}

#[test]
fn hovered_action_draws_the_darker_background() {
    let mut action = Action::new("");
    action.set_rect(Rect::new(0, 0, 16, 16));
    let mut redraw = false;
    action.event(Event::mouse(Point::new(1, 1), false), false, &mut redraw);
    assert_eq!(
        drawn_by_action(&action),
        vec![DrawCommand::Rect { rect: Rect::new(0, 0, 16, 16), color: face_down() }]
    );
}

#[test]
fn glyph_that_does_not_fit_is_skipped() {
    let mut action = Action::new("Hi");
    action.set_rect(Rect::new(10, 20, 15, 16));
    assert_eq!(drawn_by_action(&action)[1..], [glyph(10, 20, 'H')]);

    let mut action = Action::new("Hi");
    action.set_rect(Rect::new(10, 20, 16, 15));
    assert_eq!(drawn_by_action(&action).len(), 1);
}

#[test]
fn skipped_glyph_still_moves_the_pen() {
    let mut action = Action::new("abc").text_offset(-8, 0);
    action.set_rect(Rect::new(100, 100, 17, 16));
    assert_eq!(drawn_by_action(&action)[1..], [glyph(100, 100, 'b'), glyph(108, 100, 'c')]);

    let mut action = Action::new("abc").text_offset(2, 0);
    action.set_rect(Rect::new(100, 100, 17, 16));
    assert_eq!(drawn_by_action(&action)[1..], [glyph(102, 100, 'a')]);
}

#[test]
fn glyph_that_starts_left_of_or_above_the_rectangle_is_skipped() {
    let mut action = Action::new("a").text_offset(-4, 0);
    action.set_rect(Rect::new(0, 0, 100, 100));
    assert_eq!(drawn_by_action(&action).len(), 1);

    let mut action = Action::new("a").text_offset(0, -1);
    action.set_rect(Rect::new(0, 0, 100, 100));
    assert_eq!(drawn_by_action(&action).len(), 1);

    let mut action = Action::new("a\nb").text_offset(-1, -16);
    action.set_rect(Rect::new(5, 5, 100, 100));
    assert_eq!(drawn_by_action(&action)[1..], [glyph(5, 5, 'b')]);

    let mut menu = Menu::new("ab").text_offset(-4, 0);
    menu.set_rect(Rect::new(0, 0, 100, 100));
    assert_eq!(drawn_by_menu(&menu)[1..], [glyph(4, 0, 'b')]);
}

#[test]
fn line_feed_sends_the_pen_to_column_zero_of_the_next_line() {
    let mut action = Action::new("a\nb").text_offset(4, 1);
    action.set_rect(Rect::new(10, 10, 12, 40));
    assert_eq!(drawn_by_action(&action)[1..], [glyph(14, 11, 'a'), glyph(10, 27, 'b')]);
}

#[test]
fn line_feed_makes_room_after_glyphs_that_did_not_fit() {
    let mut action = Action::new("abc\nd");
    action.set_rect(Rect::new(0, 0, 8, 32));
    assert_eq!(drawn_by_action(&action)[1..], [glyph(0, 0, 'a'), glyph(0, 16, 'd')]);
}

#[test]
fn lines_below_the_rectangle_are_skipped() {
    let mut action = Action::new("a\nb\nc");
    action.set_rect(Rect::new(0, 0, 8, 32));
    assert_eq!(drawn_by_action(&action)[1..], [glyph(0, 0, 'a'), glyph(0, 16, 'b')]);
}

#[test]
fn text_offset_moves_the_label() {
    let mut action = Action::new("a").text_offset(3, 5);
    action.set_rect(Rect::new(10, 20, 50, 50));
    assert_eq!(drawn_by_action(&action)[1..], [glyph(13, 25, 'a')]);

    let mut menu = Menu::new("a").text_offset(3, 5);
    menu.set_rect(Rect::new(10, 20, 50, 50));
    assert_eq!(drawn_by_menu(&menu)[1..], [glyph(13, 25, 'a')]);
}

#[test]
fn text_replaces_the_title() {
    let mut menu = Menu::new("File").text("Ed");
    menu.set_rect(Rect::new(0, 0, 100, 20));
    assert_eq!(
        drawn_by_menu(&menu),
        vec![
            DrawCommand::Rect { rect: Rect::new(0, 0, 100, 20), color: face_up() },
            glyph(0, 0, 'E'),
            glyph(8, 0, 'd'),
        ]
    );
}

#[test]
fn closed_menu_draws_its_header_only() {
    let mut menu = Menu::new("F");
    menu.set_rect(Rect::new(0, 0, 100, 20));
    menu.add_action(Action::new("O"));
    menu.add_separator();
    assert_eq!(
        drawn_by_menu(&menu),
        vec![
            DrawCommand::Rect { rect: Rect::new(0, 0, 100, 20), color: face_up() },
            glyph(0, 0, 'F'),
        ]
    );
}

#[test]
fn open_menu_draws_its_header_then_its_entries_from_the_top() {
    let mut menu = Menu::new("F");
    menu.set_rect(Rect::new(0, 0, 100, 20));
    menu.add_action(Action::new("O"));
    menu.add_separator();
    menu.add_action(Action::new("Q"));
    let mut redraw = false;
    menu.event(Event::mouse(Point::new(5, 5), true), false, &mut redraw);
    assert_eq!(
        drawn_by_menu(&menu),
        vec![
            DrawCommand::Rect { rect: Rect::new(0, 0, 100, 20), color: face_down() },
            glyph(0, 0, 'F'),
            DrawCommand::Rect { rect: Rect::new(0, 20, 8, 20), color: face_up() },
            glyph(0, 20, 'O'),
            DrawCommand::Rect { rect: Rect::new(0, 40, 100, 20), color: face_up() },
            DrawCommand::Line { start: Point::new(0, 50), end: Point::new(100, 50), color: ink() },
            DrawCommand::Rect { rect: Rect::new(0, 60, 100, 20), color: face_up() },
            glyph(0, 60, 'Q'),
        ]
    );
}

#[test]
fn open_menu_draws_a_hovered_entry_darker() {
    let mut menu = Menu::new("");
    menu.set_rect(Rect::new(0, 0, 100, 20));
    menu.add_action(Action::new(""));
    menu.add_action(Action::new("ab"));
    let mut redraw = false;
    menu.event(Event::mouse(Point::new(5, 5), true), false, &mut redraw);
    menu.event(Event::mouse(Point::new(5, 45), true), false, &mut redraw);
    assert_eq!(
        drawn_by_menu(&menu),
        vec![
            DrawCommand::Rect { rect: Rect::new(0, 0, 100, 20), color: face_down() },
            DrawCommand::Rect { rect: Rect::new(0, 20, 16, 20), color: face_up() },
            DrawCommand::Rect { rect: Rect::new(0, 40, 16, 20), color: face_down() },
            glyph(0, 40, 'a'),
            glyph(8, 40, 'b'),
        ]
    );
}

#[test]
fn very_long_label_is_drawn_as_far_as_it_fits() {
    let label: String = std::iter::repeat('x').take(5000).collect();
    let mut action = Action::new(&label);
    action.set_rect(Rect::new(0, 0, 80, 16));
    assert_eq!(drawn_by_action(&action).len(), 11);
}
