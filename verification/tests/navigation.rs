use mbr::navigation::NavigationPanel;
use mbr::ui::{KeyCode, KeyEvent};

#[test]
fn navigation_starts_on_questions() {
    let nav = NavigationPanel::new();
    assert_eq!(nav.selected(), 0);
    assert_eq!(nav.selected_item().unwrap().label, "Questions");
    assert_eq!(nav.items.len(), 4);
    assert_eq!(nav.title(), "Navigation");
}

#[test]
fn navigation_keys_move_and_stop_at_the_ends() {
    let mut nav = NavigationPanel::new();
    assert!(nav.handle_key(KeyEvent::plain(KeyCode::Up)));
    assert_eq!(nav.selected(), 0);
    assert!(nav.handle_key(KeyEvent::plain(KeyCode::Char('j'))));
    assert!(nav.handle_key(KeyEvent::plain(KeyCode::Down)));
    assert_eq!(nav.selected_item().unwrap().label, "Databases");
    assert!(nav.handle_key(KeyEvent::plain(KeyCode::End)));
    assert_eq!(nav.selected(), 3);
    assert!(nav.handle_key(KeyEvent::plain(KeyCode::Down)));
    assert_eq!(nav.selected(), 3);
    assert!(nav.handle_key(KeyEvent::plain(KeyCode::Char('k'))));
    assert_eq!(nav.selected(), 2);
    assert!(nav.handle_key(KeyEvent::plain(KeyCode::Home)));
    assert_eq!(nav.selected(), 0);
    assert!(!nav.handle_key(KeyEvent::plain(KeyCode::Enter)));
    assert_eq!(nav.selected(), 0);
}
