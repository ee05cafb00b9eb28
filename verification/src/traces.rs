//! What holds of the controller over whole sequences of events.

use vstd::prelude::*;
use crate::visibility::{action_for, next_phase, Action, ClickKind, Event, Lifecycle, WindowState};

verus! {

/// The state reached from `phase` when `events` arrive one after another.
pub open spec fn run(phase: Lifecycle, events: Seq<Event>) -> Lifecycle
    decreases events.len(),
{
    if events.len() == 0 {
        phase
    } else {
        next_phase(run(phase, events.drop_last()), events.last())
    }
}

/// Whether `event` is one of the two that move the window: a primary click on
/// the tray icon, or a close request.
pub open spec fn moves_window(event: Event) -> bool {
    event == Event::TrayClick(ClickKind::Primary) || event == Event::CloseRequested
}

/// The window state that `event` leaves behind, where it moves the window.
pub open spec fn state_after(event: Event) -> WindowState {
    if event == Event::CloseRequested {
        WindowState::Hidden
    } else {
        WindowState::ShownFocused
    }
}

/// Running the first `n + 1` events is running the first `n` and then taking
/// one step on the event that follows them.
pub proof fn lemma_run_prefix(phase: Lifecycle, events: Seq<Event>, n: int)
    requires
        0 <= n < events.len(),
    ensures
        run(phase, events.take(n + 1)) == next_phase(run(phase, events.take(n)), events[n]),
{
    assert(events.take(n + 1).drop_last() =~= events.take(n));
}

/// Once the shell runs it runs for good: no sequence of events leads out of
/// the running states, so none ends the process.
pub proof fn lemma_running_is_kept(window: WindowState, events: Seq<Event>)
    ensures
        run(Lifecycle::Running(window), events) is Running,
    decreases events.len(),
{
    if events.len() > 0 {
        lemma_running_is_kept(window, events.drop_last());
    }
}

/// The action that `event` asks for, where it moves the window.
pub open spec fn action_after(event: Event) -> Action {
    if event == Event::CloseRequested {
        Action::Conceal
    } else {
        Action::Reveal
    }
}

/// While the shell runs, after each primary click the window is shown and
/// focused and after each close request it is hidden, whatever came before;
/// either way the shell still runs. The click asks for the window to be
/// revealed and the close request for it to be concealed, whatever the window
/// was.
pub proof fn lemma_window_follows_events(window: WindowState, events: Seq<Event>, n: int)
    requires
        0 <= n < events.len(),
        moves_window(events[n]),
    ensures
        run(Lifecycle::Running(window), events.take(n + 1)) == Lifecycle::Running(
            state_after(events[n]),
        ),
        action_for(run(Lifecycle::Running(window), events.take(n)), events[n]) == action_after(
            events[n],
        ),
{
    lemma_run_prefix(Lifecycle::Running(window), events, n);
    lemma_running_is_kept(window, events.take(n));
}

/// A close request does not end the process: the shell runs on with its
/// window hidden, and the next primary click on the tray icon brings the
/// window back.
pub proof fn lemma_close_keeps_alive(window: WindowState)
    ensures
        next_phase(Lifecycle::Running(window), Event::CloseRequested) == Lifecycle::Running(
            WindowState::Hidden,
        ),
        next_phase(
            next_phase(Lifecycle::Running(window), Event::CloseRequested),
            Event::TrayClick(ClickKind::Primary),
        ) == Lifecycle::Running(WindowState::ShownFocused),
{
}

/// Where the tray icon cannot be set up, the window never comes to be shown
/// and focused, whatever events follow the failure.
pub proof fn lemma_failed_startup_never_shows(events: Seq<Event>)
    requires
        events.len() > 0,
        events[0] == Event::TrayFailed,
    ensures
        run(Lifecycle::Starting, events) == Lifecycle::Aborted,
    decreases events.len(),
{
    if events.len() == 1 {
        assert(events.drop_last().len() == 0);
    } else {
        lemma_failed_startup_never_shows(events.drop_last());
    }
}

/// Tray clicks on a window that is shown and focused leave it so, however
/// many of them come and of whatever kind.
pub proof fn lemma_clicks_keep_shown(events: Seq<Event>)
    requires
        forall|i: int| 0 <= i < events.len() ==> #[trigger] events[i] is TrayClick,
    ensures
        run(Lifecycle::Running(WindowState::ShownFocused), events) == Lifecycle::Running(
            WindowState::ShownFocused,
        ),
    decreases events.len(),
{
    if events.len() > 0 {
        lemma_clicks_keep_shown(events.drop_last());
        assert(events.last() is TrayClick);
    }
}

} // verus!
