//! The window controller: one state machine that every intent passes through.

use vstd::prelude::*;

verus! {

/// Exit code of the process after an explicit quit.
pub const EXIT_OK: i32 = 0;

/// Whether the managed window is on screen.
#[derive(Clone, Copy, Debug, PartialEq, Eq, Structural)]
pub enum VisibilityState {
    Shown,
    Hidden,
}

/// A user action after the surfaces have normalised it.
#[derive(Clone, Copy, Debug, PartialEq, Eq, Structural)]
pub enum Intent {
    /// Tray click, tray menu entry or hotkey: flip the window's visibility.
    ToggleRequested,
    /// Tray menu entry: end the process.
    QuitRequested,
    /// The window's own close affordance was used.
    CloseRequested,
}

/// One call that the caller makes on the toolkit, or the end of the process.
#[derive(Clone, Copy, Debug, PartialEq, Eq, Structural)]
pub enum Effect {
    /// Move the window's top-left corner to a physical position.
    SetPosition { x: i32, y: i32 },
    /// Put the window on screen.
    Show,
    /// Take the window off screen; it lives on in the tray.
    Hide,
    /// Ask for input focus, so that the window surfaces above the others.
    Focus,
    /// Suppress the default action of the close event that is being handled.
    PreventClose,
    /// End the process with this exit code.
    Exit { code: i32 },
}

/// What the controller decided for one intent.
#[derive(Debug)]
pub struct Transition {
    /// Visibility once the effects have been performed.
    pub next: VisibilityState,
    /// The effects, in the order in which they are to be performed.
    pub effects: Vec<Effect>,
    /// True when the process ends with this transition.
    pub exits: bool,
}

/// The visibility that a toolkit report stands for: a window whose visibility
/// is unknown counts as hidden, so that the next toggle summons it.
pub open spec fn visibility_of_report(visible: Option<bool>) -> VisibilityState {
    if visible == Some(true) {
        VisibilityState::Shown
    } else {
        VisibilityState::Hidden
    }
}

/// The other visibility.
pub open spec fn flipped(state: VisibilityState) -> VisibilityState {
    match state {
        VisibilityState::Shown => VisibilityState::Hidden,
        VisibilityState::Hidden => VisibilityState::Shown,
    }
}

/// Visibility after an intent has been handled in `state`.
pub open spec fn next_visibility(state: VisibilityState, intent: Intent) -> VisibilityState {
    match intent {
        Intent::ToggleRequested => flipped(state),
        Intent::CloseRequested => VisibilityState::Hidden,
        Intent::QuitRequested => state,
    }
}

/// The effects of handling an intent in `state`, in order.
pub open spec fn effects_of(state: VisibilityState, intent: Intent) -> Seq<Effect> {
    match intent {
        Intent::ToggleRequested => match state {
            VisibilityState::Shown => seq![Effect::Hide],
            VisibilityState::Hidden => seq![Effect::Show, Effect::Focus],
        },
        Intent::CloseRequested => seq![Effect::PreventClose, Effect::Hide],
        Intent::QuitRequested => seq![Effect::Exit { code: EXIT_OK }],
    }
}

/// True of the one intent that ends the process.
pub open spec fn ends_process(intent: Intent) -> bool {
    intent == Intent::QuitRequested
}

impl VisibilityState {
    /// Reads a toolkit report of the window's visibility; `None` is a report
    /// that failed.
    pub fn from_report(visible: Option<bool>) -> (state: VisibilityState)
        ensures
            state == visibility_of_report(visible),
    {
        match visible {
            Some(true) => VisibilityState::Shown,
            _ => VisibilityState::Hidden,
        }
    }

    /// The other visibility.
    pub fn toggled(self) -> (state: VisibilityState)
        ensures
            state == flipped(self),
    {
        match self {
            VisibilityState::Shown => VisibilityState::Hidden,
            VisibilityState::Hidden => VisibilityState::Shown,
        }
    }
}

/// Handles one intent in `state`: the row of the transition table for it.
pub fn handle(state: VisibilityState, intent: Intent) -> (t: Transition)
    ensures
        t.next == next_visibility(state, intent),
        t.effects@ == effects_of(state, intent),
        t.exits == ends_process(intent),
{
    let mut effects: Vec<Effect> = Vec::new();
    match intent {
        Intent::ToggleRequested => {
            match state {
                VisibilityState::Shown => {
                    effects.push(Effect::Hide);
                },
                VisibilityState::Hidden => {
                    effects.push(Effect::Show);
                    effects.push(Effect::Focus);
                },
            }
            proof {
                assert(effects@ =~= effects_of(state, intent));
            }
            Transition { next: state.toggled(), effects, exits: false }
        },
        Intent::CloseRequested => {
            effects.push(Effect::PreventClose);
            effects.push(Effect::Hide);
            proof {
                assert(effects@ =~= effects_of(state, intent));
            }
            Transition { next: VisibilityState::Hidden, effects, exits: false }
        },
        Intent::QuitRequested => {
            effects.push(Effect::Exit { code: EXIT_OK });
            proof {
                assert(effects@ =~= effects_of(state, intent));
            }
            Transition { next: state, effects, exits: true }
        },
    }
}

/// Flips the window's visibility, read from the toolkit at the moment of the
/// event: a visible window is hidden, any other is shown and then focused.
pub fn toggle_window(visible: Option<bool>) -> (effects: Vec<Effect>)
    ensures
        effects@ == effects_of(visibility_of_report(visible), Intent::ToggleRequested),
        visible == Some(true) ==> effects@ == seq![Effect::Hide],
        visible != Some(true) ==> effects@ == seq![Effect::Show, Effect::Focus],
{
    handle(VisibilityState::from_report(visible), Intent::ToggleRequested).effects
}

/// Where a sequence of intents leaves the window, and what it asked of the
/// toolkit on the way.
pub ghost struct Trace {
    /// Visibility after the last intent that was handled.
    pub state: VisibilityState,
    /// Every effect, in order.
    pub effects: Seq<Effect>,
    /// True when the process has ended.
    pub exited: bool,
}

/// Handles `intents` one after the other, each against the visibility that the
/// one before left behind. The process ends with the first quit: what arrives
/// after it is never handled.
pub open spec fn trace_of(state: VisibilityState, intents: Seq<Intent>) -> Trace
    decreases intents.len(),
{
    if intents.len() == 0 {
        Trace { state, effects: Seq::empty(), exited: false }
    } else if ends_process(intents[0]) {
        Trace { state, effects: effects_of(state, intents[0]), exited: true }
    } else {
        let rest = trace_of(next_visibility(state, intents[0]), intents.drop_first());
        Trace {
            state: rest.state,
            effects: effects_of(state, intents[0]) + rest.effects,
            exited: rest.exited,
        }
    }
}

/// The effects of `count` close requests in a row: each one suppresses the
/// default action and then hides the window.
pub open spec fn close_effects(count: nat) -> Seq<Effect> {
    Seq::new(
        2 * count,
        |k: int|
            if k % 2 == 0 {
                Effect::PreventClose
            } else {
                Effect::Hide
            },
    )
}

/// What `run_intents` reports.
#[derive(Debug)]
pub struct Outcome {
    /// Visibility after the last intent that was handled.
    pub state: VisibilityState,
    /// Every effect, in order.
    pub effects: Vec<Effect>,
    /// True when the process has ended.
    pub exited: bool,
}

/// Handles a queue of intents in arrival order, starting in `state`, and
/// stops at the first one that ends the process.
pub fn run_intents(state: VisibilityState, intents: &Vec<Intent>) -> (out: Outcome)
    ensures
        out.state == trace_of(state, intents@).state,
        out.effects@ == trace_of(state, intents@).effects,
        out.exited == trace_of(state, intents@).exited,
{
    let ghost whole = trace_of(state, intents@);
    let mut current = state;
    let mut effects: Vec<Effect> = Vec::new();
    let mut i: usize = 0;
    proof {
        assert(intents@.skip(0) =~= intents@);
        assert(effects@ + whole.effects =~= whole.effects);
    }
    while i < intents.len()
        invariant
            i <= intents.len(),
            whole == trace_of(state, intents@),
            whole.state == trace_of(current, intents@.skip(i as int)).state,
            whole.effects == effects@ + trace_of(current, intents@.skip(i as int)).effects,
            whole.exited == trace_of(current, intents@.skip(i as int)).exited,
        decreases intents.len() - i,
    {
        let ghost pending = intents@.skip(i as int);
        let ghost before = effects@;
        let mut t = handle(current, intents[i]);
        effects.append(&mut t.effects);
        proof {
            assert(pending[0] == intents@[i as int]);
            assert(pending.drop_first() =~= intents@.skip(i + 1));
        }
        if t.exits {
            return Outcome { state: current, effects, exited: true };
        }
        proof {
            let rest = trace_of(t.next, intents@.skip(i + 1));
            assert(before + (effects_of(current, pending[0]) + rest.effects) =~= effects@
                + rest.effects);
        }
        current = t.next;
        i += 1;
    }
    proof {
        assert(effects@ + Seq::<Effect>::empty() =~= effects@);
    }
    Outcome { state: current, effects, exited: false }
}

/// Toggling is its own inverse: from either visibility, two toggles in a row
/// lead back to it, and the process goes on.
pub proof fn toggle_twice_restores_visibility(state: VisibilityState)
    ensures
        next_visibility(
            next_visibility(state, Intent::ToggleRequested),
            Intent::ToggleRequested,
        ) == state,
        trace_of(state, seq![Intent::ToggleRequested, Intent::ToggleRequested]).state == state,
        !trace_of(state, seq![Intent::ToggleRequested, Intent::ToggleRequested]).exited,
{
    let twice = seq![Intent::ToggleRequested, Intent::ToggleRequested];
    let once = seq![Intent::ToggleRequested];
    assert(twice.drop_first() =~= once);
    assert(once.drop_first() =~= Seq::<Intent>::empty());
    reveal_with_fuel(trace_of, 3);
}

/// Summoning focuses: a transition from hidden to shown asks for exactly two
/// effects, the show first and the focus after it.
pub proof fn summon_shows_then_focuses(state: VisibilityState, intent: Intent)
    requires
        state == VisibilityState::Hidden,
        next_visibility(state, intent) == VisibilityState::Shown,
    ensures
        effects_of(state, intent).len() == 2,
        effects_of(state, intent)[0] == Effect::Show,
        effects_of(state, intent)[1] == Effect::Focus,
{
}

/// True of a sequence of effects in which each show is directly followed by a
/// focus, and no focus stands anywhere but directly after a show.
pub open spec fn focus_follows_show(effects: Seq<Effect>) -> bool {
    forall|k: int|
        0 <= k < effects.len() ==> {
            &&& #[trigger] effects[k] == Effect::Show ==> k + 1 < effects.len() && effects[k + 1]
                == Effect::Focus
            &&& effects[k] == Effect::Focus ==> 0 < k && effects[k - 1] == Effect::Show
        }
}

/// In every run a show is directly followed by a focus, and a focus is never
/// asked for but directly after a show.
pub proof fn every_summon_focuses(state: VisibilityState, intents: Seq<Intent>)
    ensures
        focus_follows_show(trace_of(state, intents).effects),
    decreases intents.len(),
{
    if intents.len() > 0 && !ends_process(intents[0]) {
        let head = effects_of(state, intents[0]);
        let rest = trace_of(next_visibility(state, intents[0]), intents.drop_first());
        every_summon_focuses(next_visibility(state, intents[0]), intents.drop_first());
        let all = trace_of(state, intents).effects;
        assert(all == head + rest.effects);
        assert forall|k: int| 0 <= k < all.len() implies {
            &&& #[trigger] all[k] == Effect::Show ==> k + 1 < all.len() && all[k + 1]
                == Effect::Focus
            &&& all[k] == Effect::Focus ==> 0 < k && all[k - 1] == Effect::Show
        } by {
            if k >= head.len() {
                let j = k - head.len();
                assert(all[k] == rest.effects[j]);
                if rest.effects[j] == Effect::Show {
                    assert(all[k + 1] == rest.effects[j + 1]);
                }
                if rest.effects[j] == Effect::Focus {
                    assert(all[k - 1] == rest.effects[j - 1]);
                }
            }
        }
    }
}

/// Closing never exits: however many close requests arrive, the process goes
/// on, no exit is asked for, and each request asks for exactly one suppression
/// of the default action followed by one hide.
pub proof fn closing_never_exits(state: VisibilityState, intents: Seq<Intent>)
    requires
        forall|i: int| 0 <= i < intents.len() ==> intents[i] == Intent::CloseRequested,
    ensures
        !trace_of(state, intents).exited,
        forall|k: int|
            0 <= k < trace_of(state, intents).effects.len() ==> !(trace_of(state, intents).effects[k] is Exit),
        trace_of(state, intents).effects == close_effects(intents.len()),
        intents.len() > 0 ==> trace_of(state, intents).state == VisibilityState::Hidden,
        intents.len() == 0 ==> trace_of(state, intents).state == state,
    decreases intents.len(),
{
    if intents.len() == 0 {
        assert(trace_of(state, intents).effects =~= close_effects(0));
    } else {
        let tail = intents.drop_first();
        closing_never_exits(VisibilityState::Hidden, tail);
        let rest = trace_of(VisibilityState::Hidden, tail);
        let all = trace_of(state, intents).effects;
        assert(all == effects_of(state, intents[0]) + rest.effects);
        assert(all.len() == 2 * intents.len());
        assert forall|k: int| 0 <= k < all.len() implies all[k] == close_effects(
            intents.len(),
        )[k] by {
            if k >= 2 {
                assert(all[k] == rest.effects[k - 2]);
                assert(rest.effects[k - 2] == close_effects(tail.len())[k - 2]);
            }
        }
        assert(all =~= close_effects(intents.len()));
    }
}

/// Quitting is the only exit: a run ends the process exactly when a quit is
/// among its intents, and then the exit is its last effect and carries the
/// code of a clean exit.
pub proof fn exit_iff_quit(state: VisibilityState, intents: Seq<Intent>)
    ensures
        trace_of(state, intents).exited <==> intents.contains(Intent::QuitRequested),
        trace_of(state, intents).effects.contains(Effect::Exit { code: EXIT_OK })
            <==> intents.contains(Intent::QuitRequested),
        forall|k: int|
            0 <= k < trace_of(state, intents).effects.len() && trace_of(state, intents).effects[k] is Exit
                ==> k == trace_of(state, intents).effects.len() - 1 && trace_of(state, intents).effects[k]
                == (Effect::Exit { code: EXIT_OK }),
    decreases intents.len(),
{
    let quit = Intent::QuitRequested;
    let exit = Effect::Exit { code: EXIT_OK };
    let all = trace_of(state, intents).effects;
    if intents.len() == 0 {
    } else if ends_process(intents[0]) {
        assert(intents[0] == quit);
        assert(all[0] == exit);
    } else {
        let head = effects_of(state, intents[0]);
        let tail = intents.drop_first();
        let rest = trace_of(next_visibility(state, intents[0]), tail);
        exit_iff_quit(next_visibility(state, intents[0]), tail);
        assert(all == head + rest.effects);
        if intents.contains(quit) {
            let i = choose|i: int| 0 <= i < intents.len() && intents[i] == quit;
            assert(tail[i - 1] == quit);
            assert(tail.contains(quit));
            let k = choose|k: int| 0 <= k < rest.effects.len() && rest.effects[k] == exit;
            assert(all[k + head.len()] == exit);
        }
        if tail.contains(quit) {
            let i = choose|i: int| 0 <= i < tail.len() && tail[i] == quit;
            assert(intents[i + 1] == quit);
        }
        if all.contains(exit) {
            let k = choose|k: int| 0 <= k < all.len() && all[k] == exit;
            assert(k >= head.len());
            assert(rest.effects[k - head.len()] == exit);
            assert(rest.effects.contains(exit));
        }
        assert forall|k: int| 0 <= k < all.len() && all[k] is Exit implies k == all.len() - 1
            && all[k] == exit by {
            assert(k >= head.len());
            assert(all[k] == rest.effects[k - head.len()]);
        }
    }
}

/// Whether a window is on screen once a toolkit that carries out every call
/// has performed `effects`, given whether it was on screen before.
pub open spec fn visible_after(visible: bool, effects: Seq<Effect>) -> bool
    decreases effects.len(),
{
    if effects.len() == 0 {
        visible
    } else {
        let first = match effects[0] {
            Effect::Show => true,
            Effect::Hide => false,
            _ => visible,
        };
        visible_after(first, effects.drop_first())
    }
}

/// Performing one sequence of effects and then another is performing the two
/// in a row.
pub proof fn visible_after_concat(visible: bool, first: Seq<Effect>, second: Seq<Effect>)
    ensures
        visible_after(visible, first + second) == visible_after(
            visible_after(visible, first),
            second,
        ),
    decreases first.len(),
{
    if first.len() == 0 {
        assert(first + second =~= second);
    } else {
        let next = match first[0] {
            Effect::Show => true,
            Effect::Hide => false,
            _ => visible,
        };
        assert((first + second).drop_first() =~= first.drop_first() + second);
        visible_after_concat(next, first.drop_first(), second);
    }
}

/// The state mirrors the window: where the window's visibility is the state
/// before a run and the toolkit carries out every call, the window's
/// visibility is the state after it.
pub proof fn state_mirrors_window(state: VisibilityState, intents: Seq<Intent>)
    ensures
        visible_after(state == VisibilityState::Shown, trace_of(state, intents).effects) == (trace_of(
            state,
            intents,
        ).state == VisibilityState::Shown),
    decreases intents.len(),
{
    let visible = state == VisibilityState::Shown;
    if intents.len() == 0 {
    } else {
        let head = effects_of(state, intents[0]);
        let next = next_visibility(state, intents[0]);
        reveal_with_fuel(visible_after, 3);
        if head.len() == 2 {
            assert(head.drop_first()[0] == head[1]);
        }
        assert(visible_after(visible, head) == (next == VisibilityState::Shown));
        if !ends_process(intents[0]) {
            let rest = trace_of(next, intents.drop_first());
            state_mirrors_window(next, intents.drop_first());
            visible_after_concat(visible, head, rest.effects);
        }
    }
}

} // verus!
