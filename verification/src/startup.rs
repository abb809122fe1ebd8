//! Startup order and the policy for failures of the toolkit.

use vstd::prelude::*;

verus! {

/// The steps of startup, in the order in which they run.
#[derive(Clone, Copy, Debug, PartialEq, Eq, Structural)]
pub enum StartupStep {
    Placement,
    Tray,
    Hotkey,
    CloseSubscription,
}

/// What can go wrong in the toolkit.
#[derive(Clone, Copy, Debug, PartialEq, Eq, Structural)]
pub enum Fault {
    /// The toolkit context could not be initialised.
    ToolkitInit,
    /// No monitor was reported for the window.
    MonitorQuery,
    /// The icon file could not be loaded from its path.
    IconFile,
    /// The icon inside the executable could not be decoded.
    EmbeddedIcon,
    /// The tray menu or one of its items could not be built.
    MenuConstruction,
    /// The tray icon could not be built.
    TrayConstruction,
    /// The global hotkey could not be registered.
    HotkeyRegistration,
    /// The window did not say whether it is visible.
    VisibilityQuery,
    /// A request to show the window failed.
    Show,
    /// A request to hide the window failed.
    Hide,
    /// A request for focus failed.
    Focus,
    /// A request to move the window failed.
    SetPosition,
}

/// How a fault is answered.
#[derive(Clone, Copy, Debug, PartialEq, Eq, Structural)]
pub enum ErrorBand {
    /// The process ends with a diagnostic.
    Fatal,
    /// Work goes on with a fallback.
    Degraded,
    /// Nothing is done: the user's next action reconciles.
    Ignored,
}

/// How far startup has come.
#[derive(Clone, Copy, Debug, PartialEq, Eq, Structural)]
pub enum Phase {
    /// This step is the next to run.
    Starting(StartupStep),
    /// Every step is done; events are being handled.
    Running,
    /// Startup failed; the process ends with a code other than zero.
    Aborted,
}

/// How one attempt at a step ended.
#[derive(Clone, Copy, Debug, PartialEq, Eq, Structural)]
pub enum StepReport {
    Done,
    Failed(Fault),
}

/// The band of each fault.
pub open spec fn band_of(fault: Fault) -> ErrorBand {
    match fault {
        Fault::ToolkitInit => ErrorBand::Fatal,
        Fault::EmbeddedIcon => ErrorBand::Fatal,
        Fault::MenuConstruction => ErrorBand::Fatal,
        Fault::TrayConstruction => ErrorBand::Fatal,
        Fault::HotkeyRegistration => ErrorBand::Fatal,
        Fault::MonitorQuery => ErrorBand::Degraded,
        Fault::IconFile => ErrorBand::Degraded,
        Fault::VisibilityQuery => ErrorBand::Degraded,
        Fault::Show => ErrorBand::Ignored,
        Fault::Hide => ErrorBand::Ignored,
        Fault::Focus => ErrorBand::Ignored,
        Fault::SetPosition => ErrorBand::Ignored,
    }
}

/// The step after `step`, if any.
pub open spec fn step_after(step: StartupStep) -> Option<StartupStep> {
    match step {
        StartupStep::Placement => Some(StartupStep::Tray),
        StartupStep::Tray => Some(StartupStep::Hotkey),
        StartupStep::Hotkey => Some(StartupStep::CloseSubscription),
        StartupStep::CloseSubscription => None,
    }
}

/// The phase after a report: a step that is done gives way to the next, a
/// fatal fault aborts, and any other fault leaves the step in progress.
pub open spec fn phase_after(phase: Phase, report: StepReport) -> Phase {
    match phase {
        Phase::Starting(step) => match report {
            StepReport::Done => match step_after(step) {
                Some(next) => Phase::Starting(next),
                None => Phase::Running,
            },
            StepReport::Failed(fault) => if band_of(fault) == ErrorBand::Fatal {
                Phase::Aborted
            } else {
                phase
            },
        },
        Phase::Running => phase,
        Phase::Aborted => phase,
    }
}

/// The phase after each of `reports` in turn.
pub open spec fn phase_after_all(phase: Phase, reports: Seq<StepReport>) -> Phase
    decreases reports.len(),
{
    if reports.len() == 0 {
        phase
    } else {
        phase_after(phase_after_all(phase, reports.drop_last()), reports.last())
    }
}

/// The phase in which a process begins.
pub fn initial_phase() -> (phase: Phase)
    ensures
        phase == Phase::Starting(StartupStep::Placement),
{
    Phase::Starting(StartupStep::Placement)
}

/// Classifies a fault.
pub fn band(fault: Fault) -> (band: ErrorBand)
    ensures
        band == band_of(fault),
{
    match fault {
        Fault::ToolkitInit
        | Fault::EmbeddedIcon
        | Fault::MenuConstruction
        | Fault::TrayConstruction
        | Fault::HotkeyRegistration => ErrorBand::Fatal,
        Fault::MonitorQuery | Fault::IconFile | Fault::VisibilityQuery => ErrorBand::Degraded,
        Fault::Show | Fault::Hide | Fault::Focus | Fault::SetPosition => ErrorBand::Ignored,
    }
}

/// The step after `step`, if any.
pub fn next_step(step: StartupStep) -> (next: Option<StartupStep>)
    ensures
        next == step_after(step),
{
    match step {
        StartupStep::Placement => Some(StartupStep::Tray),
        StartupStep::Tray => Some(StartupStep::Hotkey),
        StartupStep::Hotkey => Some(StartupStep::CloseSubscription),
        StartupStep::CloseSubscription => None,
    }
}

/// Moves startup on by one report.
pub fn advance(phase: Phase, report: StepReport) -> (next: Phase)
    ensures
        next == phase_after(phase, report),
{
    match phase {
        Phase::Starting(step) => match report {
            StepReport::Done => match next_step(step) {
                Some(next) => Phase::Starting(next),
                None => Phase::Running,
            },
            StepReport::Failed(fault) => match band(fault) {
                ErrorBand::Fatal => Phase::Aborted,
                _ => phase,
            },
        },
        Phase::Running => phase,
        Phase::Aborted => phase,
    }
}

/// Startup runs placement, tray, hotkey and close subscription in this order,
/// and four steps done lead from the beginning to a running process.
pub proof fn startup_runs_in_order()
    ensures
        phase_after_all(
            Phase::Starting(StartupStep::Placement),
            seq![StepReport::Done],
        ) == Phase::Starting(StartupStep::Tray),
        phase_after_all(
            Phase::Starting(StartupStep::Placement),
            seq![StepReport::Done, StepReport::Done],
        ) == Phase::Starting(StartupStep::Hotkey),
        phase_after_all(
            Phase::Starting(StartupStep::Placement),
            seq![StepReport::Done, StepReport::Done, StepReport::Done],
        ) == Phase::Starting(StartupStep::CloseSubscription),
        phase_after_all(
            Phase::Starting(StartupStep::Placement),
            seq![StepReport::Done, StepReport::Done, StepReport::Done, StepReport::Done],
        ) == Phase::Running,
{
    let d = StepReport::Done;
    assert(seq![d].drop_last() =~= Seq::<StepReport>::empty());
    assert(seq![d, d].drop_last() =~= seq![d]);
    assert(seq![d, d, d].drop_last() =~= seq![d, d]);
    assert(seq![d, d, d, d].drop_last() =~= seq![d, d, d]);
    reveal_with_fuel(phase_after_all, 5);
}

/// An aborted startup stays aborted, whatever is reported after it.
pub proof fn abort_is_final(reports: Seq<StepReport>)
    ensures
        phase_after_all(Phase::Aborted, reports) == Phase::Aborted,
    decreases reports.len(),
{
    if reports.len() > 0 {
        abort_is_final(reports.drop_last());
    }
}

/// Startup never reaches a running process past a fatal fault.
pub proof fn fatal_fault_prevents_running(phase: Phase, reports: Seq<StepReport>, at: int)
    requires
        phase is Starting,
        0 <= at < reports.len(),
        reports[at] is Failed,
        band_of(reports[at]->Failed_0) == ErrorBand::Fatal,
        phase_after_all(phase, reports.take(at)) is Starting,
    ensures
        phase_after_all(phase, reports) == Phase::Aborted,
    decreases reports.len(),
{
    if at == reports.len() - 1 {
        assert(reports.drop_last() =~= reports.take(at));
    } else {
        let front = reports.drop_last();
        assert(front.take(at) =~= reports.take(at));
        fatal_fault_prevents_running(phase, front, at);
    }
}

} // verus!
