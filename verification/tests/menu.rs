use bayworks::menu::{MenuEvent, NavMenu};

#[test]
fn menu_starts_closed() {
    let menu = NavMenu::new();
    assert!(!menu.is_open());
    assert_eq!(menu.aria_expanded(), "false");
}

#[test]
fn toggle_opens_and_closes() {
    let mut menu = NavMenu::new();
    menu.handle(MenuEvent::ToggleClicked);
    assert!(menu.is_open());
    assert_eq!(menu.aria_expanded(), "true");
    menu.handle(MenuEvent::ToggleClicked);
    assert!(!menu.is_open());
    assert_eq!(menu.aria_expanded(), "false");
}

#[test]
fn nav_click_closes_open_menu() {
    let mut menu = NavMenu::new();
    menu.handle(MenuEvent::ToggleClicked);
    menu.handle(MenuEvent::NavClicked);
    assert!(!menu.is_open());
}

#[test]
fn nav_click_keeps_closed_menu_closed() {
    let mut menu = NavMenu::new();
    menu.handle(MenuEvent::NavClicked);
    assert!(!menu.is_open());
}

#[test]
fn aria_expanded_matches_bool_to_string() {
    for open in [false, true] {
        let menu = NavMenu { open };
        assert_eq!(menu.aria_expanded(), open.to_string());
    }
}

#[test]
fn open_after_odd_toggles_since_last_nav_click() {
    let mut menu = NavMenu::new();
    let events = [
        MenuEvent::ToggleClicked,
        MenuEvent::ToggleClicked,
        MenuEvent::NavClicked,
        MenuEvent::ToggleClicked,
        MenuEvent::ToggleClicked,
        MenuEvent::ToggleClicked,
    ];
    for e in events {
        menu.handle(e);
    }
    assert!(menu.is_open());
}
