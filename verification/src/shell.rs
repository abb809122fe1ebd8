//! The fan-in: every surface's raw events, normalised to intents and handled
//! by the one controller, from launch on.

use crate::controller::{
    effects_of,
    handle,
    next_visibility,
    trace_of,
    run_intents,
    visible_after,
    Effect,
    Intent,
    Outcome,
    Transition,
    VisibilityState,
};
use crate::hotkey::hotkey_intent;
use crate::placement::{
    place_bottom_right,
    placement,
    LogicalSize,
    Monitor,
    PlacementGeometry,
    ScaleFactor,
};
use crate::tray::{menu_intent, menu_intent_of, tray_intent, tray_intent_of, TrayEvent};
use vstd::prelude::*;

verus! {

/// A raw event, as one of the surfaces delivers it.
#[derive(Debug)]
pub enum Event {
    /// The tray menu item with this identifier was activated.
    Menu(String),
    /// The pointer did something on the tray icon.
    Tray(TrayEvent),
    /// The global hotkey fired.
    Hotkey,
    /// The window's close affordance was used.
    CloseRequested,
}

/// How a process begins.
#[derive(Debug)]
pub struct Launch {
    /// Where the window was put; `None` where placement was skipped.
    pub geometry: Option<PlacementGeometry>,
    /// Visibility once the effects have been performed.
    pub state: VisibilityState,
    /// The effects of startup, in order.
    pub effects: Vec<Effect>,
}

/// The intent behind a raw event, if it has one.
pub open spec fn intent_of(event: Event) -> Option<Intent> {
    match event {
        Event::Menu(id) => menu_intent_of(id@),
        Event::Tray(pointer) => tray_intent_of(pointer),
        Event::Hotkey => Some(Intent::ToggleRequested),
        Event::CloseRequested => Some(Intent::CloseRequested),
    }
}

/// The intents behind a sequence of raw events, in the same order; an event
/// without an intent leaves no trace.
pub open spec fn intents_of(events: Seq<Event>) -> Seq<Intent>
    decreases events.len(),
{
    if events.len() == 0 {
        Seq::empty()
    } else {
        match intent_of(events.last()) {
            Some(intent) => intents_of(events.drop_last()).push(intent),
            None => intents_of(events.drop_last()),
        }
    }
}

/// The effects of startup: the window is moved where there is a placement,
/// and then presented.
pub open spec fn launch_effects(geometry: Option<PlacementGeometry>) -> Seq<Effect> {
    match geometry {
        Some(g) => seq![Effect::SetPosition { x: g.x, y: g.y }, Effect::Show],
        None => seq![Effect::Show],
    }
}

/// Normalises one raw event.
pub fn event_intent(event: &Event) -> (intent: Option<Intent>)
    ensures
        intent == intent_of(*event),
{
    match event {
        Event::Menu(id) => menu_intent(id.as_str()),
        Event::Tray(pointer) => tray_intent(*pointer),
        Event::Hotkey => Some(hotkey_intent()),
        Event::CloseRequested => Some(Intent::CloseRequested),
    }
}

/// Normalises a queue of raw events, dropping those that mean nothing.
pub fn collect_intents(events: &Vec<Event>) -> (intents: Vec<Intent>)
    ensures
        intents@ == intents_of(events@),
{
    let mut intents: Vec<Intent> = Vec::new();
    let mut i: usize = 0;
    while i < events.len()
        invariant
            i <= events.len(),
            intents@ == intents_of(events@.take(i as int)),
        decreases events.len() - i,
    {
        proof {
            let upto = events@.take(i + 1);
            assert(upto.last() == events@[i as int]);
            assert(upto.drop_last() =~= events@.take(i as int));
        }
        match event_intent(&events[i]) {
            Some(intent) => {
                intents.push(intent);
            },
            None => {},
        }
        i += 1;
    }
    proof {
        assert(events@.take(events.len() as int) =~= events@);
    }
    intents
}

/// Handles one raw event against the visibility `state`: an event with an
/// intent takes the controller's transition for it, any other changes nothing.
pub fn dispatch(state: VisibilityState, event: &Event) -> (t: Transition)
    ensures
        intent_of(*event) matches Some(intent) ==> {
            &&& t.next == next_visibility(state, intent)
            &&& t.effects@ == effects_of(state, intent)
            &&& t.exits == (intent == Intent::QuitRequested)
        },
        intent_of(*event) is None ==> t.next == state && t.effects@.len() == 0 && !t.exits,
{
    match event_intent(event) {
        Some(intent) => handle(state, intent),
        None => Transition { next: state, effects: Vec::new(), exits: false },
    }
}

/// Starts the process: places the window from what the toolkit reported of
/// its monitor and scale, and presents it.
pub fn launch(monitor: Option<Monitor>, scale: Option<ScaleFactor>, logical: LogicalSize) -> (start:
    Launch)
    ensures
        start.geometry == placement(monitor, scale, logical),
        start.state == VisibilityState::Shown,
        start.effects@ == launch_effects(start.geometry),
{
    let geometry = place_bottom_right(monitor, scale, logical);
    let mut effects: Vec<Effect> = Vec::new();
    match geometry {
        Some(g) => {
            effects.push(Effect::SetPosition { x: g.x, y: g.y });
        },
        None => {},
    }
    effects.push(Effect::Show);
    proof {
        assert(effects@ =~= launch_effects(geometry));
    }
    Launch { geometry, state: VisibilityState::Shown, effects }
}

/// Handles a queue of raw events in arrival order, starting in `state`, and
/// stops at the first one that ends the process.
pub fn replay(state: VisibilityState, events: &Vec<Event>) -> (out: Outcome)
    ensures
        out.state == trace_of(state, intents_of(events@)).state,
        out.effects@ == trace_of(state, intents_of(events@)).effects,
        out.exited == trace_of(state, intents_of(events@)).exited,
{
    let intents = collect_intents(events);
    run_intents(state, &intents)
}

/// Events without an intent change nothing: a queue made of them alone leaves
/// the window as it was and asks nothing of the toolkit.
pub proof fn ignored_events_change_nothing(state: VisibilityState, events: Seq<Event>)
    requires
        forall|i: int| 0 <= i < events.len() ==> intent_of(#[trigger] events[i]) is None,
    ensures
        intents_of(events).len() == 0,
        trace_of(state, intents_of(events)).state == state,
        trace_of(state, intents_of(events)).effects.len() == 0,
        !trace_of(state, intents_of(events)).exited,
    decreases events.len(),
{
    if events.len() > 0 {
        ignored_events_change_nothing(state, events.drop_last());
    }
}

/// Launch presents the window: once the effects of startup are performed, the
/// window is on screen, wherever the toolkit had left it.
pub proof fn launch_presents_window(visible: bool, geometry: Option<PlacementGeometry>)
    ensures
        visible_after(visible, launch_effects(geometry)),
{
    let effects = launch_effects(geometry);
    reveal_with_fuel(visible_after, 3);
    if effects.len() == 2 {
        assert(effects.drop_first()[0] == effects[1]);
    }
}

} // verus!
