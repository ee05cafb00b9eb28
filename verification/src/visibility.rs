//! The window-visibility controller: how tray clicks and close requests move
//! the single main window between shown and hidden.
//!
//! The controller decides; it never touches a window. Whoever owns the window
//! and the tray icon hands each event to [`Controller::handle`], learns which
//! [`Action`] is due, and carries out the calls that [`commands`] lists for
//! it. The calls are best effort: whether one of them succeeds is never
//! reported back, so a failed call changes nothing in what the controller
//! believes.

use vstd::prelude::*;

verus! {

/// What the user sees of the main window.
#[derive(Clone, Copy, Debug, PartialEq, Eq, Structural)]
pub enum WindowState {
    /// The window is visible and has the input focus.
    ShownFocused,
    /// The window is hidden; only the tray icon is left on screen.
    Hidden,
}

/// Where the shell stands in its life.
#[derive(Clone, Copy, Debug, PartialEq, Eq, Structural)]
pub enum Lifecycle {
    /// The tray icon is still being set up; no window has been shown.
    Starting,
    /// The tray icon stands and the event loop runs.
    Running(WindowState),
    /// The tray icon could not be set up, and startup was given up.
    Aborted,
}

/// How the tray icon was clicked.
#[derive(Clone, Copy, Debug, PartialEq, Eq, Structural)]
pub enum ClickKind {
    /// One click of the primary button.
    Primary,
    /// One click of the secondary button.
    Secondary,
    /// A double click.
    Double,
}

/// What can happen to the shell.
#[derive(Clone, Copy, Debug, PartialEq, Eq, Structural)]
pub enum Event {
    /// The icon image was loaded and the tray icon built.
    TrayReady,
    /// The icon image could not be loaded, or the tray icon not built.
    TrayFailed,
    /// The tray icon was clicked.
    TrayClick(ClickKind),
    /// The user asked to close the main window.
    CloseRequested,
    /// Any other event of the main window.
    Other,
}

/// What the owner of the window is to do after an event.
#[derive(Clone, Copy, Debug, PartialEq, Eq, Structural)]
pub enum Action {
    /// Nothing.
    Nothing,
    /// Bring the window before the user.
    Reveal,
    /// Keep the process alive and take the window off the screen.
    Conceal,
    /// Give up startup and pass the failure on.
    Abort,
}

/// What the platform lets the shell show and hide.
#[derive(Clone, Copy, Debug, PartialEq, Eq, Structural)]
pub enum Backend {
    /// Each window is shown, hidden and focused by itself.
    PerWindow,
    /// Windows cannot be hidden one by one: the application is shown or
    /// hidden as a whole.
    WholeApplication,
}

/// One call to the windowing system.
#[derive(Clone, Copy, Debug, PartialEq, Eq, Structural)]
pub enum Command {
    /// Make the main window visible.
    ShowWindow,
    /// Ask for the input focus on the main window.
    FocusWindow,
    /// Hide the main window.
    HideWindow,
    /// Reveal the whole application.
    ShowApplication,
    /// Hide the whole application.
    HideApplication,
    /// Suppress the close that was asked for, so that the process lives on.
    PreventClose,
}

/// The state that follows `phase` on `event`.
///
/// Startup ends with the first word about the tray icon: with the icon in
/// place the shell runs, its window shown; without it startup is given up for
/// good. While the shell runs, a primary click on the tray icon shows the
/// window and a close request hides it, whatever the window was before.
/// Nothing else changes the state.
pub open spec fn next_phase(phase: Lifecycle, event: Event) -> Lifecycle {
    match (phase, event) {
        (Lifecycle::Starting, Event::TrayReady) => Lifecycle::Running(WindowState::ShownFocused),
        (Lifecycle::Starting, Event::TrayFailed) => Lifecycle::Aborted,
        (Lifecycle::Running(_), Event::TrayClick(ClickKind::Primary)) => Lifecycle::Running(
            WindowState::ShownFocused,
        ),
        (Lifecycle::Running(_), Event::CloseRequested) => Lifecycle::Running(WindowState::Hidden),
        _ => phase,
    }
}

/// The action that is due when `event` arrives in `phase`.
///
/// A primary click reveals the window even where it is shown already, and a
/// close request conceals it even where it is hidden already: doing either
/// twice is harmless.
pub open spec fn action_for(phase: Lifecycle, event: Event) -> Action {
    match (phase, event) {
        (Lifecycle::Starting, Event::TrayFailed) => Action::Abort,
        (Lifecycle::Running(_), Event::TrayClick(ClickKind::Primary)) => Action::Reveal,
        (Lifecycle::Running(_), Event::CloseRequested) => Action::Conceal,
        _ => Action::Nothing,
    }
}

/// The calls that carry out `action` on `backend`, in the order in which they
/// are made.
pub open spec fn commands_for(backend: Backend, action: Action) -> Seq<Command> {
    match (action, backend) {
        (Action::Reveal, Backend::PerWindow) => seq![Command::ShowWindow, Command::FocusWindow],
        (Action::Reveal, Backend::WholeApplication) => seq![Command::ShowApplication],
        (Action::Conceal, Backend::PerWindow) => seq![Command::HideWindow, Command::PreventClose],
        (Action::Conceal, Backend::WholeApplication) => seq![
            Command::HideApplication,
            Command::PreventClose,
        ],
        (Action::Nothing, _) => seq![],
        (Action::Abort, _) => seq![],
    }
}

/// Lists the calls that carry out `action` on `backend`, in order.
///
/// To reveal is to show the window and then focus it, or to show the whole
/// application; to conceal is to hide the one or the other and then to
/// suppress the close. Nothing and an abort take no call.
pub fn commands(backend: Backend, action: Action) -> (list: Vec<Command>)
    ensures
        list@ == commands_for(backend, action),
{
    let mut list: Vec<Command> = Vec::new();
    match action {
        Action::Reveal => match backend {
            Backend::PerWindow => {
                list.push(Command::ShowWindow);
                list.push(Command::FocusWindow);
            },
            Backend::WholeApplication => {
                list.push(Command::ShowApplication);
            },
        },
        Action::Conceal => {
            match backend {
                Backend::PerWindow => {
                    list.push(Command::HideWindow);
                },
                Backend::WholeApplication => {
                    list.push(Command::HideApplication);
                },
            }
            list.push(Command::PreventClose);
        },
        Action::Nothing => {},
        Action::Abort => {},
    }
    assert(list@ =~= commands_for(backend, action));
    list
}

/// The controller of the one main window: it knows where the shell stands and
/// says what each event asks for.
#[derive(Clone, Copy, Debug)]
pub struct Controller {
    phase: Lifecycle,
}

impl Controller {
    /// Where the shell stands.
    pub closed spec fn view(&self) -> Lifecycle {
        self.phase
    }

    /// A controller for a shell that is starting up.
    pub fn new() -> (controller: Self)
        ensures
            controller@ == Lifecycle::Starting,
    {
        Controller { phase: Lifecycle::Starting }
    }

    /// Where the shell stands.
    pub fn phase(&self) -> (phase: Lifecycle)
        ensures
            phase == self@,
    {
        self.phase
    }

    /// Whether the window is before the user: the shell runs and the window
    /// is shown and focused.
    pub fn is_shown(&self) -> (shown: bool)
        ensures
            shown == (self@ == Lifecycle::Running(WindowState::ShownFocused)),
    {
        match self.phase {
            Lifecycle::Running(WindowState::ShownFocused) => true,
            _ => false,
        }
    }

    /// Whether the process lives on: it does unless startup was given up.
    pub fn is_alive(&self) -> (alive: bool)
        ensures
            alive == (self@ != Lifecycle::Aborted),
    {
        match self.phase {
            Lifecycle::Aborted => false,
            _ => true,
        }
    }

    /// Takes in `event`: moves to the state that follows and returns the
    /// action that is due.
    pub fn handle(&mut self, event: Event) -> (action: Action)
        ensures
            final(self)@ == next_phase(old(self)@, event),
            action == action_for(old(self)@, event),
    {
        let (next, action) = match (self.phase, event) {
            (Lifecycle::Starting, Event::TrayReady) => (
                Lifecycle::Running(WindowState::ShownFocused),
                Action::Nothing,
            ),
            (Lifecycle::Starting, Event::TrayFailed) => (Lifecycle::Aborted, Action::Abort),
            (Lifecycle::Running(_), Event::TrayClick(ClickKind::Primary)) => (
                Lifecycle::Running(WindowState::ShownFocused),
                Action::Reveal,
            ),
            (Lifecycle::Running(_), Event::CloseRequested) => (
                Lifecycle::Running(WindowState::Hidden),
                Action::Conceal,
            ),
            (phase, _) => (phase, Action::Nothing),
        };
        self.phase = next;
        action
    }
}

} // verus!
