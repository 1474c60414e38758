//! The header's menu on narrow screens: the toggle button opens and closes
//! it, and following any of its links closes it.

use vstd::prelude::*;

verus! {

/// What the user does to the menu.
#[derive(Clone, Copy, Debug, PartialEq, Eq, Structural)]
pub enum MenuEvent {
    /// The menu's toggle button was clicked.
    ToggleClicked,
    /// The navigation bar (one of its links) was clicked.
    NavClicked,
}

/// Whether the menu is open after `event`, from `open`.
pub open spec fn spec_menu_next(open: bool, event: MenuEvent) -> bool {
    match event {
        MenuEvent::ToggleClicked => !open,
        MenuEvent::NavClicked => false,
    }
}

/// Whether the menu is open after the `events`, in order, from `open`.
pub open spec fn spec_menu_after(open: bool, events: Seq<MenuEvent>) -> bool
    decreases events.len(),
{
    if events.len() == 0 {
        open
    } else {
        spec_menu_next(spec_menu_after(open, events.drop_last()), events.last())
    }
}

/// The number of toggle clicks in `events` after the last navigation click
/// (all of them when there is none).
pub open spec fn toggles_since_nav(events: Seq<MenuEvent>) -> nat
    decreases events.len(),
{
    if events.len() == 0 {
        0
    } else {
        match events.last() {
            MenuEvent::NavClicked => 0,
            MenuEvent::ToggleClicked => toggles_since_nav(events.drop_last()) + 1,
        }
    }
}

/// The text `bool::to_string` gives: `"true"` or `"false"`.
pub open spec fn spec_bool_text(b: bool) -> Seq<char> {
    if b {
        "true"@
    } else {
        "false"@
    }
}

/// The open/closed state of the header's menu.
#[derive(Clone, Copy, Debug, PartialEq, Eq, Structural)]
pub struct NavMenu {
    pub open: bool,
}

impl NavMenu {
    /// The menu as a page first shows it: closed.
    pub fn new() -> (menu: NavMenu)
        ensures
            !menu.open,
    {
        NavMenu { open: false }
    }

    /// Whether the menu is open.
    pub fn is_open(&self) -> (open: bool)
        ensures
            open == self.open,
    {
        self.open
    }

    /// Applies a user action to the menu.
    pub fn handle(&mut self, event: MenuEvent)
        ensures
            final(self).open == spec_menu_next(old(self).open, event),
    {
        match event {
            MenuEvent::ToggleClicked => {
                self.open = !self.open;
            },
            MenuEvent::NavClicked => {
                self.open = false;
            },
        }
    }

    /// The value of the toggle button's `aria-expanded` attribute: the
    /// menu's state written as `bool::to_string` writes it.
    pub fn aria_expanded(&self) -> (text: &'static str)
        ensures
            text@ == spec_bool_text(self.open),
    {
        if self.open {
            "true"
        } else {
            "false"
        }
    }
}

/// Menu law: two toggle clicks in a row leave the menu as it was.
pub proof fn lemma_toggle_twice(open: bool)
    ensures
        spec_menu_next(spec_menu_next(open, MenuEvent::ToggleClicked), MenuEvent::ToggleClicked)
            == open,
{
}

/// Menu law: a click on the navigation bar closes the menu, whatever its state.
pub proof fn lemma_nav_click_closes(open: bool)
    ensures
        !spec_menu_next(open, MenuEvent::NavClicked),
{
}

/// Menu law: starting closed, the menu is open after a sequence of actions
/// exactly when an odd number of toggle clicks followed the last navigation
/// click.
pub proof fn lemma_menu_open_parity(events: Seq<MenuEvent>)
    ensures
        spec_menu_after(false, events) <==> toggles_since_nav(events) % 2 == 1,
    decreases events.len(),
{
    if events.len() > 0 {
        lemma_menu_open_parity(events.drop_last());
    }
}

} // verus!
