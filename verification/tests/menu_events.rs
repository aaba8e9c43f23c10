use dropdown_menu::{Action, Click, ClickTarget, Entry, Event, Menu, MenuEntry, Point, Rect};

fn pointer(x: i32, y: i32, left_button: bool) -> Event {
    Event::mouse(Point::new(x, y), left_button)
}

fn on_header(x: i32, y: i32) -> Click {
    Click { target: ClickTarget::Header, point: Point::new(x, y) }
}

fn on_entry(index: usize, x: i32, y: i32) -> Click {
    Click { target: ClickTarget::Entry(index), point: Point::new(x, y) }
}

/// A menu whose header is (0, 0, 100, 20), with "Open" at (0, 20, 32, 20),
/// a separator at (0, 40, 100, 20) and "Quit" at (0, 60, 100, 20).
fn file_menu() -> Menu {
    let mut menu = Menu::new("File");
    menu.set_rect(Rect::new(0, 0, 100, 20));
    menu.add_action(Action::new("Open"));
    menu.add_separator();
    menu.add_action(Action::new("Quit"));
    menu
}

fn open_file_menu() -> Menu {
    let mut menu = file_menu();
    let mut redraw = false;
    menu.event(pointer(5, 5, true), false, &mut redraw);
    assert!(menu.is_activated());
    menu
}

fn action_flags(menu: &Menu, index: usize) -> (bool, bool) {
    match menu.entry(index) {
        Some(MenuEntry::Action(action)) => (action.is_hovered(), action.is_pressed()),
        _ => panic!("entry {} is an action", index),
    }
}

#[test]
fn fixture_is_laid_out_as_described() {
    let menu = file_menu();
    let rects: Vec<Rect> = (0..3)
        .map(|index| match menu.entry(index) {
            Some(MenuEntry::Action(action)) => action.rect(),
            Some(MenuEntry::Separator(separator)) => separator.rect(),
            None => panic!("three entries"),
        })
        .collect();
    assert_eq!(
        rects,
        vec![Rect::new(0, 20, 32, 20), Rect::new(0, 40, 100, 20), Rect::new(0, 60, 100, 20)]
    );
}

#[test]
fn press_on_the_header_opens_and_release_keeps_open() {
    let mut menu = Menu::new("File");
    menu.set_rect(Rect::new(0, 0, 100, 20));
    assert!(!menu.is_activated());

    let mut redraw = false;
    let press = menu.event(pointer(5, 5, true), false, &mut redraw);
    assert!(menu.is_activated());
    assert!(menu.is_pressed());
    assert_eq!(press.clicks, vec![on_header(5, 5)]);
    assert!(redraw);

    let mut redraw = false;
    let release = menu.event(pointer(5, 5, false), false, &mut redraw);
    assert!(menu.is_activated());
    assert!(menu.is_pressed());
    assert!(release.clicks.is_empty());
    assert!(!redraw);
}

#[test]
fn click_position_is_relative_to_the_header() {
    let mut menu = Menu::new("File");
    menu.set_rect(Rect::new(30, 40, 100, 20));
    let mut redraw = false;
    let press = menu.event(pointer(35, 59, true), false, &mut redraw);
    assert_eq!(press.clicks, vec![on_header(5, 19)]);
}

#[test]
fn second_press_on_the_header_lets_the_release_close() {
    let mut menu = open_file_menu();

    let mut redraw = false;
    let press = menu.event(pointer(5, 5, true), false, &mut redraw);
    assert!(menu.is_activated());
    assert!(!menu.is_pressed());
    assert!(press.clicks.is_empty());

    let mut redraw = false;
    let release = menu.event(pointer(6, 7, false), false, &mut redraw);
    assert!(!menu.is_activated());
    assert!(!menu.is_pressed());
    assert_eq!(release.clicks, vec![on_header(6, 7)]);
    assert!(redraw);
}

#[test]
fn release_elsewhere_closes_an_open_menu() {
    let mut menu = open_file_menu();
    let mut redraw = false;
    menu.event(pointer(500, 500, true), false, &mut redraw);
    assert!(menu.is_activated());
    assert!(!menu.is_pressed());

    let mut redraw = false;
    let release = menu.event(pointer(500, 500, false), false, &mut redraw);
    assert!(!menu.is_activated());
    assert!(redraw);
    assert!(release.clicks.is_empty());
}

#[test]
fn release_elsewhere_keeps_a_menu_open_while_a_press_is_held() {
    let mut menu = open_file_menu();
    assert!(menu.is_pressed());
    let mut redraw = false;
    let release = menu.event(pointer(500, 500, false), false, &mut redraw);
    assert!(menu.is_activated());
    assert!(menu.is_pressed());
    assert!(!redraw);
    assert!(release.clicks.is_empty());
}

#[test]
fn release_elsewhere_leaves_a_closed_menu_alone() {
    let mut menu = file_menu();
    let mut redraw = false;
    let release = menu.event(pointer(500, 500, false), false, &mut redraw);
    assert!(!menu.is_activated());
    assert!(!menu.is_pressed());
    assert!(!redraw);
    assert!(release.clicks.is_empty());
}

#[test]
fn press_on_an_action_reaches_the_action_and_drops_the_menus_press() {
    let mut menu = open_file_menu();
    assert!(menu.is_pressed());

    let mut redraw = false;
    let press = menu.event(pointer(10, 30, true), false, &mut redraw);
    assert_eq!(action_flags(&menu, 0), (true, true));
    assert_eq!(action_flags(&menu, 2), (false, false));
    assert!(redraw);
    assert!(menu.is_activated());
    assert!(!menu.is_pressed());
    assert!(press.clicks.is_empty());
}

#[test]
fn click_on_an_action_is_reported_and_closes_the_menu() {
    let mut menu = open_file_menu();
    let mut redraw = false;
    menu.event(pointer(10, 30, true), false, &mut redraw);

    let mut redraw = false;
    let release = menu.event(pointer(10, 30, false), false, &mut redraw);
    assert_eq!(release.clicks, vec![on_entry(0, 10, 10)]);
    assert_eq!(action_flags(&menu, 0), (false, false));
    assert!(!menu.is_activated());
    assert!(redraw);
}

#[test]
fn entry_click_comes_before_the_header_click() {
    let mut menu = file_menu();
    menu.set_rect(Rect::new(0, 20, 100, 20));
    let mut redraw = false;
    menu.event(pointer(50, 25, true), false, &mut redraw);
    assert!(menu.is_activated());
    menu.event(pointer(10, 25, true), false, &mut redraw);
    assert!(!menu.is_pressed());

    let release = menu.event(pointer(10, 25, false), false, &mut redraw);
    assert_eq!(release.clicks, vec![on_entry(0, 10, 5), on_header(10, 5)]);
    assert!(!menu.is_activated());
}

#[test]
fn click_on_the_last_action_names_its_index() {
    let mut menu = open_file_menu();
    let mut redraw = false;
    menu.event(pointer(99, 79, true), false, &mut redraw);
    let release = menu.event(pointer(99, 79, false), false, &mut redraw);
    assert_eq!(release.clicks, vec![on_entry(2, 99, 19)]);
}

#[test]
fn separator_under_the_pointer_holds_the_menu_open() {
    let mut menu = open_file_menu();
    let mut redraw = false;
    menu.event(pointer(500, 500, true), false, &mut redraw);
    assert!(!menu.is_pressed());

    let mut redraw = false;
    let press = menu.event(pointer(10, 50, true), false, &mut redraw);
    assert!(menu.is_pressed());
    assert!(menu.is_activated());
    assert!(!redraw);
    assert!(press.clicks.is_empty());

    let mut redraw = false;
    let release = menu.event(pointer(10, 50, false), false, &mut redraw);
    assert!(menu.is_pressed());
    assert!(menu.is_activated());
    assert!(!redraw);
    assert!(release.clicks.is_empty());
}

#[test]
fn closed_menu_keeps_events_from_its_entries() {
    let mut menu = file_menu();
    let mut redraw = false;
    let response = menu.event(pointer(10, 30, true), false, &mut redraw);
    assert_eq!(action_flags(&menu, 0), (false, false));
    assert!(!redraw);
    assert!(!menu.is_activated());
    assert!(!menu.is_pressed());
    assert!(response.clicks.is_empty());

    let response = menu.event(pointer(10, 50, true), false, &mut redraw);
    assert!(!menu.is_pressed());
    assert!(response.clicks.is_empty());
}

#[test]
fn pointer_over_an_entry_asks_for_a_redraw_once() {
    let mut menu = open_file_menu();
    let mut redraw = false;
    menu.event(pointer(10, 70, true), false, &mut redraw);
    assert!(redraw);
    let mut redraw = false;
    menu.event(pointer(10, 70, true), false, &mut redraw);
    assert!(!redraw);
}

#[test]
fn focus_flag_comes_back_as_it_went_in() {
    let mut menu = file_menu();
    let mut redraw = false;
    assert!(menu.event(pointer(5, 5, true), true, &mut redraw).focused);
    assert!(!menu.event(pointer(5, 5, false), false, &mut redraw).focused);
    assert!(menu.event(Event::Unknown, true, &mut redraw).focused);
    assert!(!menu.event(pointer(500, 500, false), false, &mut redraw).focused);
}

#[test]
fn other_events_change_nothing_in_a_menu() {
    let mut menu = open_file_menu();
    let mut redraw = false;
    menu.event(pointer(10, 30, true), false, &mut redraw);
    let flags = action_flags(&menu, 0);

    for event in [Event::Init, Event::Text { c: '\n' }, Event::Scroll { x: 1, y: 1 }, Event::Unknown]
    {
        let mut redraw = false;
        let response = menu.event(event, false, &mut redraw);
        assert!(!redraw);
        assert!(response.clicks.is_empty());
        assert!(menu.is_activated());
        assert!(!menu.is_pressed());
        assert_eq!(action_flags(&menu, 0), flags);
    }
}

#[test]
fn closed_menu_holds_no_press_along_the_way() {
    let mut menu = file_menu();
    let events = [
        pointer(5, 5, true),
        pointer(5, 5, false),
        pointer(10, 50, false),
        pointer(10, 30, true),
        pointer(10, 30, false),
        pointer(5, 5, false),
        pointer(5, 5, true),
        pointer(5, 5, true),
        pointer(5, 5, false),
        Event::Unknown,
        pointer(500, 500, true),
        pointer(500, 500, false),
    ];
    for event in events {
        let mut redraw = false;
        menu.event(event, false, &mut redraw);
        assert!(menu.is_activated() || !menu.is_pressed());
    }
}

fn snapshot(menu: &Menu) -> (bool, bool, Vec<(Rect, bool, bool)>) {
    let entries = (0..menu.len())
        .map(|index| match menu.entry(index) {
            Some(MenuEntry::Action(action)) => {
                (action.rect(), action.is_hovered(), action.is_pressed())
            }
            Some(MenuEntry::Separator(separator)) => (separator.rect(), false, false),
            None => panic!("entry {} is there", index),
        })
        .collect();
    (menu.is_activated(), menu.is_pressed(), entries)
}

#[test]
fn steps_add_up_to_the_event() {
    let events = [
        pointer(5, 5, true),
        pointer(5, 5, false),
        pointer(10, 30, false),
        pointer(10, 30, true),
        pointer(10, 50, true),
        pointer(10, 50, false),
        Event::Unknown,
        pointer(10, 70, true),
        pointer(10, 70, false),
        pointer(5, 5, true),
        pointer(5, 5, true),
        pointer(5, 5, false),
        pointer(500, 500, false),
    ];
    let mut whole = file_menu();
    let mut stepped = file_menu();
    for event in events {
        let mut redraw_whole = false;
        let response = whole.event(event, true, &mut redraw_whole);

        let mut redraw_stepped = false;
        let mut claimed = false;
        let mut clicks = Vec::new();
        for index in 0..stepped.len() {
            let answer = stepped.entry_event(index, event, true, &mut redraw_stepped);
            claimed = claimed || answer.consumed;
            if let Some(point) = answer.click {
                clicks.push(Click { target: ClickTarget::Entry(index), point });
            }
        }
        if let Some(point) = stepped.header_event(event, claimed, &mut redraw_stepped) {
            clicks.push(Click { target: ClickTarget::Header, point });
        }

        assert_eq!(snapshot(&stepped), snapshot(&whole));
        assert_eq!(clicks, response.clicks);
        assert_eq!(redraw_stepped, redraw_whole);
    }
}

#[test]
fn entry_step_leaves_a_closed_menu_alone() {
    let mut menu = file_menu();
    let before = snapshot(&menu);
    let mut redraw = false;
    let on_action = menu.entry_event(0, pointer(10, 30, true), false, &mut redraw);
    let on_separator = menu.entry_event(1, pointer(10, 50, true), false, &mut redraw);
    assert!(!on_action.consumed && on_action.click.is_none());
    assert!(!on_separator.consumed && on_separator.click.is_none());
    assert!(!redraw);
    assert_eq!(snapshot(&menu), before);
}

#[test]
fn entry_step_reaches_one_entry_only() {
    let mut menu = open_file_menu();
    menu.set_entry_rect(2, Rect::new(0, 20, 32, 20));
    let mut redraw = false;
    let answer = menu.entry_event(2, pointer(10, 30, true), false, &mut redraw);
    assert!(!answer.consumed);
    assert!(redraw);
    assert_eq!(action_flags(&menu, 0), (false, false));
    assert_eq!(action_flags(&menu, 2), (true, true));
    assert!(menu.is_pressed());
}

#[test]
fn entry_step_on_a_separator_holds_a_press() {
    let mut menu = open_file_menu();
    let mut redraw = false;
    menu.header_event(pointer(500, 500, true), false, &mut redraw);
    assert!(!menu.is_pressed());
    let answer = menu.entry_event(1, pointer(10, 50, false), false, &mut redraw);
    assert!(answer.consumed);
    assert!(answer.click.is_none());
    assert!(menu.is_pressed());
    assert!(!redraw);
}

#[test]
fn entry_step_without_an_entry_does_nothing() {
    let mut menu = open_file_menu();
    let before = snapshot(&menu);
    let mut redraw = false;
    let answer = menu.entry_event(3, pointer(10, 30, true), false, &mut redraw);
    assert!(!answer.consumed && answer.click.is_none());
    assert!(!redraw);
    assert_eq!(snapshot(&menu), before);
}

#[test]
fn header_step_takes_the_callers_word_for_a_claim() {
    let mut menu = open_file_menu();
    let mut redraw = false;
    menu.header_event(pointer(500, 500, true), false, &mut redraw);
    assert!(!menu.is_pressed());

    let click = menu.header_event(pointer(500, 500, false), true, &mut redraw);
    assert!(menu.is_activated());
    assert_eq!(click, None);
    assert!(!redraw);

    let click = menu.header_event(pointer(500, 500, false), false, &mut redraw);
    assert!(!menu.is_activated());
    assert_eq!(click, None);
    assert!(redraw);
}

#[test]
fn header_step_clicks_where_it_opens_or_closes_from_the_header() {
    let mut menu = file_menu();
    let mut redraw = false;
    assert_eq!(
        menu.header_event(pointer(7, 9, true), false, &mut redraw),
        Some(Point::new(7, 9))
    );
    assert_eq!(menu.header_event(pointer(7, 9, false), false, &mut redraw), None);
    assert_eq!(menu.header_event(pointer(7, 9, true), false, &mut redraw), None);
    assert_eq!(
        menu.header_event(pointer(8, 9, false), false, &mut redraw),
        Some(Point::new(8, 9))
    );
    assert!(!menu.is_activated());
}

#[test]
fn entry_rectangle_can_be_set_alone() {
    let mut menu = file_menu();
    let before = snapshot(&menu);
    menu.set_entry_rect(1, Rect::new(1, 2, 3, 4));
    let after = snapshot(&menu);
    assert_eq!(after.2[1].0, Rect::new(1, 2, 3, 4));
    assert_eq!(after.2[0], before.2[0]);
    assert_eq!(after.2[2], before.2[2]);
    assert_eq!(menu.rect(), Rect::new(0, 0, 100, 20));

    menu.set_entry_rect(3, Rect::new(9, 9, 9, 9));
    assert_eq!(snapshot(&menu), after);
}

#[test]
fn entry_moved_by_hand_is_hit_where_it_now_is() {
    let mut menu = open_file_menu();
    menu.set_entry_rect(0, Rect::new(200, 200, 10, 10));
    let mut redraw = false;
    menu.event(pointer(10, 30, true), false, &mut redraw);
    assert_eq!(action_flags(&menu, 0), (false, false));
    menu.event(pointer(205, 205, true), false, &mut redraw);
    assert_eq!(action_flags(&menu, 0), (true, true));
}
