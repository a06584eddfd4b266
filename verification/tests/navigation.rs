use pocketpad::Key;
use pocketpad::KeyEvent;
use pocketpad::held_key;
use pocketpad::key_of_char;
use pocketpad::grid_menu::GridMenu;
use pocketpad::lock_screen::LockScreen;
use pocketpad::menu::Menu;
use pocketpad::menu::MenuOutcome;

#[test]
fn test_grid_menu_walks_rows() {
    let mut grid = GridMenu::new(31);
    let down = Some(held_key::Event::Down(Key::Down));
    // Walk to the end of the first row and one step beyond it.
    for _ in 0..8 {
        assert_eq!(grid.key_event(down), None);
    }
    // The ninth cell is the first of the second row.
    assert_eq!(
        grid.key_event(Some(held_key::Event::Down(Key::Select))),
        Some(8)
    );
    // Walking back up crosses the row boundary the same way.
    let up = Some(held_key::Event::Repeat(Key::Up));
    assert_eq!(grid.key_event(up), None);
    assert_eq!(
        grid.key_event(Some(held_key::Event::Down(Key::Select))),
        Some(7)
    );
}

#[test]
fn test_grid_menu_stops_at_ends() {
    let mut grid = GridMenu::new(3);
    let up = Some(held_key::Event::Down(Key::Up));
    let down = Some(held_key::Event::Delay(Key::Down));
    assert_eq!(grid.key_event(up), None);
    assert_eq!(
        grid.key_event(Some(held_key::Event::Down(Key::Select))),
        Some(0)
    );
    for _ in 0..5 {
        assert_eq!(grid.key_event(down), None);
    }
    // The selection never leaves the three cells.
    assert_eq!(
        grid.key_event(Some(held_key::Event::Down(Key::Select))),
        Some(2)
    );
}

#[test]
fn test_menu_selection_and_paging() {
    let mut menu = Menu::new(10);
    // Three rows fit on the first page.
    menu.set_bottom_visible(2);
    let down = Some(held_key::Event::Down(Key::Down));
    assert_eq!(menu.key_event(down), MenuOutcome::Browsing);
    assert_eq!(menu.index(), 1);
    assert_eq!(menu.start_of_page(), 0);
    assert_eq!(menu.key_event(down), MenuOutcome::Browsing);
    // Stepping past the visible bottom starts a new page there.
    assert_eq!(menu.key_event(down), MenuOutcome::Browsing);
    assert_eq!(menu.index(), 3);
    assert_eq!(menu.start_of_page(), 3);
    // Stepping back above the page start scrolls back a page.
    menu.set_bottom_visible(5);
    let up = Some(held_key::Event::Down(Key::Up));
    assert_eq!(menu.key_event(up), MenuOutcome::Browsing);
    assert_eq!(menu.index(), 2);
    assert_eq!(menu.start_of_page(), 0);
    assert_eq!(
        menu.key_event(Some(held_key::Event::Down(Key::Select))),
        MenuOutcome::Selected(2)
    );
    assert_eq!(
        menu.key_event(Some(held_key::Event::Down(Key::Cancel))),
        MenuOutcome::Cancelled
    );
}

#[test]
fn test_menu_stops_at_ends() {
    let mut menu = Menu::new(2);
    menu.set_bottom_visible(1);
    let up = Some(held_key::Event::Down(Key::Up));
    let down = Some(held_key::Event::Down(Key::Down));
    assert_eq!(menu.key_event(up), MenuOutcome::Browsing);
    assert_eq!(menu.index(), 0);
    assert_eq!(menu.key_event(down), MenuOutcome::Browsing);
    assert_eq!(menu.key_event(down), MenuOutcome::Browsing);
    assert_eq!(menu.index(), 1);
}

#[test]
fn test_lock_screen_menu_wraps() {
    let mut screen = LockScreen::new(6);
    assert!(screen.locked());
    // Locked, keys open nothing.
    assert_eq!(screen.key_event(KeyEvent::Down(Key::Select)), None);
    assert!(!screen.menu_open());
    // The timed select-then-asterisk race unlocks.
    screen.confirm_unlock();
    assert!(!screen.locked());
    assert_eq!(screen.key_event(KeyEvent::Down(Key::Select)), None);
    assert!(screen.menu_open());
    // Up from the first entry wraps to the last.
    assert_eq!(screen.key_event(KeyEvent::Down(Key::Up)), None);
    assert_eq!(screen.index(), 5);
    assert_eq!(screen.key_event(KeyEvent::Down(Key::Down)), None);
    assert_eq!(screen.index(), 0);
    assert_eq!(screen.key_event(KeyEvent::Down(Key::Down)), None);
    assert_eq!(screen.key_event(KeyEvent::Down(Key::Select)), Some(1));
    // Cancel closes the menu; locking closes everything.
    assert_eq!(screen.key_event(KeyEvent::Down(Key::Cancel)), None);
    assert!(!screen.menu_open());
    screen.confirm_lock();
    assert!(screen.locked());
    assert!(!screen.menu_open());
}

#[test]
fn test_key_of_char() {
    assert_eq!(key_of_char('5'), Some(Key::Five));
    assert_eq!(key_of_char('*'), Some(Key::Asterisk));
    assert_eq!(key_of_char('u'), Some(Key::Up));
    assert_eq!(key_of_char('E'), Some(Key::Select));
    assert_eq!(key_of_char('x'), None);
}
