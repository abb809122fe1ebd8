use close_chat::controller::Intent;
use close_chat::hotkey::{hotkey_intent, toggle_hotkey, Hotkey, KeyCode};
use close_chat::text::same_text;
use close_chat::tray::{
    choose_icon, icon_path, menu_intent, tooltip, tray_intent, tray_menu, IconSource, MenuEntry,
    MouseButton, MouseButtonState, NoIcon, TrayEvent, TrayMenuItemId,
};

#[test]
fn tray_click_discrimination() {
    let buttons = [MouseButton::Left, MouseButton::Right, MouseButton::Middle];
    let states = [MouseButtonState::Up, MouseButtonState::Down];
    for button in buttons {
        for state in states {
            let intent = tray_intent(TrayEvent::Click { button, state });
            if button == MouseButton::Left && state == MouseButtonState::Up {
                assert_eq!(intent, Some(Intent::ToggleRequested));
            } else {
                assert_eq!(intent, None);
            }
        }
        assert_eq!(tray_intent(TrayEvent::DoubleClick { button }), None);
    }
    assert_eq!(tray_intent(TrayEvent::Enter), None);
    assert_eq!(tray_intent(TrayEvent::Move), None);
    assert_eq!(tray_intent(TrayEvent::Leave), None);
}

#[test]
fn menu_items_map_to_intents() {
    assert_eq!(menu_intent("show_hide"), Some(Intent::ToggleRequested));
    assert_eq!(menu_intent("quit"), Some(Intent::QuitRequested));
    assert_eq!(menu_intent(""), None);
    assert_eq!(menu_intent("Quit"), None);
    assert_eq!(menu_intent("show_hid"), None);
    assert_eq!(menu_intent("show_hide "), None);
    assert_eq!(menu_intent("qu\u{ef}t"), None);
}

#[test]
fn menu_item_identifiers_and_labels() {
    assert_eq!(TrayMenuItemId::ShowHide.id(), "show_hide");
    assert_eq!(TrayMenuItemId::Quit.id(), "quit");
    assert_eq!(TrayMenuItemId::ShowHide.label(), "Show / Hide");
    assert_eq!(TrayMenuItemId::Quit.label(), "Quit");
    for item in [TrayMenuItemId::ShowHide, TrayMenuItemId::Quit] {
        assert_eq!(TrayMenuItemId::from_id(item.id()), Some(item));
    }
    assert_eq!(TrayMenuItemId::from_id("other"), None);
    assert_eq!(TrayMenuItemId::ShowHide.intent(), Intent::ToggleRequested);
    assert_eq!(TrayMenuItemId::Quit.intent(), Intent::QuitRequested);
}

#[test]
fn tray_menu_has_two_items_around_a_separator() {
    assert_eq!(
        tray_menu(),
        vec![
            MenuEntry::Item(TrayMenuItemId::ShowHide),
            MenuEntry::Separator,
            MenuEntry::Item(TrayMenuItemId::Quit),
        ]
    );
}

#[test]
fn tooltip_and_icon_path() {
    assert_eq!(tooltip(), "Close Chat");
    assert_eq!(icon_path(), "icons/32x32.png");
}

#[test]
fn icon_falls_back_to_the_embedded_copy() {
    assert_eq!(choose_icon(true, true), Ok(IconSource::File));
    assert_eq!(choose_icon(true, false), Ok(IconSource::File));
    assert_eq!(choose_icon(false, true), Ok(IconSource::Embedded));
    assert_eq!(choose_icon(false, false), Err(NoIcon));
}

#[test]
fn hotkey_is_control_backslash() {
    assert_eq!(
        toggle_hotkey(),
        Hotkey { control: true, shift: false, alt: false, meta: false, key: KeyCode::Backslash }
    );
    assert_eq!(hotkey_intent(), Intent::ToggleRequested);
}

#[test]
fn same_text_compares_characters() {
    assert!(same_text("", ""));
    assert!(same_text("quit", "quit"));
    assert!(!same_text("quit", "quip"));
    assert!(!same_text("quit", "quit "));
    assert!(!same_text("", "q"));
    assert!(same_text("na\u{ef}ve \u{1f600}", "na\u{ef}ve \u{1f600}"));
    assert!(!same_text("na\u{ef}ve", "naive"));
}
