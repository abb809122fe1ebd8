use close_chat::controller::{Effect, Outcome, VisibilityState};
use close_chat::placement::{window_size, Monitor, PlacementGeometry, ScaleFactor};
use close_chat::shell::{collect_intents, dispatch, event_intent, launch, replay, Event, Launch};
use close_chat::controller::Intent;
use close_chat::tray::{MouseButton, MouseButtonState, TrayEvent};

fn start() -> Launch {
    let monitor = Monitor { x: 0, y: 0, width: 1920, height: 1080 };
    launch(Some(monitor), Some(ScaleFactor::from_bits(1.0f64.to_bits())), window_size())
}

fn after_start(events: Vec<Event>) -> (Vec<Effect>, Outcome) {
    let begun = start();
    let out = replay(begun.state, &events);
    let mut calls = begun.effects;
    calls.extend(out.effects.iter().copied());
    (calls, out)
}

fn click(button: MouseButton, state: MouseButtonState) -> Event {
    Event::Tray(TrayEvent::Click { button, state })
}

#[test]
fn launch_places_then_shows() {
    let begun = start();
    assert_eq!(
        begun.geometry,
        Some(PlacementGeometry { x: 1520, y: 580, width: 400, height: 500 })
    );
    assert_eq!(begun.state, VisibilityState::Shown);
    assert_eq!(begun.effects, vec![Effect::SetPosition { x: 1520, y: 580 }, Effect::Show]);
}

#[test]
fn launch_without_a_monitor_only_shows() {
    let begun = launch(None, None, window_size());
    assert_eq!(begun.geometry, None);
    assert_eq!(begun.state, VisibilityState::Shown);
    assert_eq!(begun.effects, vec![Effect::Show]);
}

#[test]
fn s1_hotkey_twice() {
    let (calls, out) = after_start(vec![Event::Hotkey, Event::Hotkey]);
    assert_eq!(
        calls,
        vec![
            Effect::SetPosition { x: 1520, y: 580 },
            Effect::Show,
            Effect::Hide,
            Effect::Show,
            Effect::Focus,
        ]
    );
    assert_eq!(out.state, VisibilityState::Shown);
    assert!(!out.exited);
}

#[test]
fn s2_close_hides() {
    let (_, out) = after_start(vec![Event::CloseRequested]);
    assert_eq!(out.effects, vec![Effect::PreventClose, Effect::Hide]);
    assert!(!out.exited);
    assert_eq!(out.state, VisibilityState::Hidden);
}

#[test]
fn s3_close_then_tray_click() {
    let (_, out) = after_start(vec![
        Event::CloseRequested,
        click(MouseButton::Left, MouseButtonState::Up),
    ]);
    assert_eq!(
        out.effects,
        vec![Effect::PreventClose, Effect::Hide, Effect::Show, Effect::Focus]
    );
    assert_eq!(out.state, VisibilityState::Shown);
    assert!(!out.exited);
}

#[test]
fn s4_menu_toggle_then_quit() {
    let (_, out) = after_start(vec![
        Event::Menu(String::from("show_hide")),
        Event::Menu(String::from("quit")),
    ]);
    assert_eq!(out.effects, vec![Effect::Hide, Effect::Exit { code: 0 }]);
    assert!(out.exited);
}

#[test]
fn s5_ignored_tray_events() {
    let (calls, out) = after_start(vec![
        click(MouseButton::Right, MouseButtonState::Down),
        click(MouseButton::Right, MouseButtonState::Up),
        click(MouseButton::Left, MouseButtonState::Down),
    ]);
    assert!(out.effects.is_empty());
    assert_eq!(calls, vec![Effect::SetPosition { x: 1520, y: 580 }, Effect::Show]);
    assert_eq!(out.state, VisibilityState::Shown);
    assert!(!out.exited);
}

#[test]
fn events_normalise_in_order() {
    let events = vec![
        Event::Hotkey,
        Event::Tray(TrayEvent::Enter),
        Event::Menu(String::from("unknown")),
        Event::CloseRequested,
        click(MouseButton::Left, MouseButtonState::Up),
        click(MouseButton::Middle, MouseButtonState::Up),
        Event::Menu(String::from("quit")),
        Event::Tray(TrayEvent::DoubleClick { button: MouseButton::Left }),
    ];
    assert_eq!(
        collect_intents(&events),
        vec![
            Intent::ToggleRequested,
            Intent::CloseRequested,
            Intent::ToggleRequested,
            Intent::QuitRequested,
        ]
    );
    assert_eq!(event_intent(&events[0]), Some(Intent::ToggleRequested));
    assert_eq!(event_intent(&events[1]), None);
    assert_eq!(event_intent(&events[2]), None);
    assert_eq!(event_intent(&events[3]), Some(Intent::CloseRequested));
}

#[test]
fn dispatch_ignores_events_without_an_intent() {
    for state in [VisibilityState::Shown, VisibilityState::Hidden] {
        let t = dispatch(state, &Event::Tray(TrayEvent::Move));
        assert_eq!(t.next, state);
        assert!(t.effects.is_empty());
        assert!(!t.exits);
        let t = dispatch(state, &Event::Menu(String::from("about")));
        assert_eq!(t.next, state);
        assert!(t.effects.is_empty());
        assert!(!t.exits);
    }
}

#[test]
fn dispatch_handles_each_surface() {
    let t = dispatch(VisibilityState::Shown, &Event::Hotkey);
    assert_eq!((t.next, t.effects, t.exits), (VisibilityState::Hidden, vec![Effect::Hide], false));
    let t = dispatch(VisibilityState::Hidden, &click(MouseButton::Left, MouseButtonState::Up));
    assert_eq!(
        (t.next, t.effects, t.exits),
        (VisibilityState::Shown, vec![Effect::Show, Effect::Focus], false)
    );
    let t = dispatch(VisibilityState::Shown, &Event::CloseRequested);
    assert_eq!(
        (t.next, t.effects, t.exits),
        (VisibilityState::Hidden, vec![Effect::PreventClose, Effect::Hide], false)
    );
    let t = dispatch(VisibilityState::Hidden, &Event::Menu(String::from("quit")));
    assert_eq!(
        (t.next, t.effects, t.exits),
        (VisibilityState::Hidden, vec![Effect::Exit { code: 0 }], true)
    );
}
