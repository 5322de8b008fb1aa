//! The tray icon: one left click shows or hides the main window.
//!
//! The handler reads whether the window is visible and asks for the
//! opposite. A window that is shown is hidden; any other is shown and given
//! input focus. Where the visibility cannot be read the window counts as
//! hidden, so that a click rather shows it once too often than leaves it out
//! of reach. No other button and no other kind of event does anything.
use vstd::prelude::*;

verus! {

/// A mouse button.
#[derive(Clone, Copy, Debug, PartialEq, Eq, Structural)]
pub enum MouseButton {
    Left,
    Right,
    Middle,
}

/// Whether a button went down or came up.
#[derive(Clone, Copy, Debug, PartialEq, Eq, Structural)]
pub enum MouseButtonState {
    Up,
    Down,
}

/// What the host reports of the tray icon.
#[derive(Clone, Copy, Debug, PartialEq, Eq, Structural)]
pub enum TrayEvent {
    /// A button was pressed or released on the icon.
    Click { button: MouseButton, state: MouseButtonState },
    /// A button was clicked twice on the icon.
    DoubleClick { button: MouseButton },
    /// The pointer came over the icon.
    Enter,
    /// The pointer moved over the icon.
    Move,
    /// The pointer left the icon.
    Leave,
    /// Anything else that the host may come to report.
    Other,
}

/// Whether the main window is on screen, as far as the host could tell.
#[derive(Clone, Copy, Debug, PartialEq, Eq, Structural)]
pub enum Visibility {
    Shown,
    Hidden,
    /// The query failed.
    Unknown,
}

/// The main window as the handler finds it when an event arrives.
#[derive(Clone, Copy, Debug, PartialEq, Eq, Structural)]
pub enum MainWindow {
    /// The host has no window under the main window's label.
    Missing,
    /// The window is there, with what could be read of its visibility.
    Present(Visibility),
}

/// One request to the host about the main window.
#[derive(Clone, Copy, Debug, PartialEq, Eq, Structural)]
pub enum WindowCommand {
    Hide,
    Show,
    SetFocus,
}

impl TrayEvent {
    /// The event is a click with the left button, pressed or released.
    pub open spec fn left_click(self) -> bool {
        self matches TrayEvent::Click { button, .. } && button == MouseButton::Left
    }

    /// Tells whether the event is the one that toggles the main window.
    pub fn is_left_click(&self) -> (yes: bool)
        ensures
            yes == self.left_click(),
    {
        match self {
            TrayEvent::Click { button: MouseButton::Left, .. } => true,
            _ => false,
        }
    }
}

impl Visibility {
    /// The visibility that a query stands for: its answer, or `Unknown`
    /// where it failed.
    pub open spec fn of_query(answer: Option<bool>) -> Visibility {
        match answer {
            Some(true) => Visibility::Shown,
            Some(false) => Visibility::Hidden,
            None => Visibility::Unknown,
        }
    }

    /// Reads the answer of a visibility query; `None` is a query that
    /// failed.
    pub fn from_query(answer: Option<bool>) -> (visibility: Visibility)
        ensures
            visibility == Visibility::of_query(answer),
    {
        match answer {
            Some(true) => Visibility::Shown,
            Some(false) => Visibility::Hidden,
            None => Visibility::Unknown,
        }
    }

    /// The visibility of a window after the host has carried out `command`.
    pub open spec fn after(self, command: WindowCommand) -> Visibility {
        match command {
            WindowCommand::Hide => Visibility::Hidden,
            WindowCommand::Show => Visibility::Shown,
            WindowCommand::SetFocus => self,
        }
    }

    /// The visibility of a window after `commands`, carried out in order.
    pub open spec fn after_all(self, commands: Seq<WindowCommand>) -> Visibility
        decreases commands.len(),
    {
        if commands.len() == 0 {
            self
        } else {
            self.after_all(commands.drop_last()).after(commands.last())
        }
    }
}

/// The commands that flip a window of the given visibility.
pub open spec fn toggle_commands(visibility: Visibility) -> Seq<WindowCommand> {
    if visibility is Shown {
        seq![WindowCommand::Hide]
    } else {
        seq![WindowCommand::Show, WindowCommand::SetFocus]
    }
}

/// The commands that answer `event`, with the main window as `window`.
pub open spec fn reaction(event: TrayEvent, window: MainWindow) -> Seq<WindowCommand> {
    match window {
        MainWindow::Present(visibility) if event.left_click() => toggle_commands(visibility),
        _ => Seq::empty(),
    }
}

/// The visibility of a window that was `visibility` when `event` arrived,
/// after the host has carried out the answer to it.
pub open spec fn after_event(visibility: Visibility, event: TrayEvent) -> Visibility {
    visibility.after_all(reaction(event, MainWindow::Present(visibility)))
}

/// Whether `commands` ask for input focus.
pub open spec fn requests_focus(commands: Seq<WindowCommand>) -> bool {
    commands.contains(WindowCommand::SetFocus)
}

/// Flips the main window: a shown window is hidden, a hidden one is shown
/// and focused, and so is one whose visibility is unknown.
pub fn toggle(visibility: Visibility) -> (commands: Vec<WindowCommand>)
    ensures
        commands@ == toggle_commands(visibility),
{
    let mut commands: Vec<WindowCommand> = Vec::new();
    match visibility {
        Visibility::Shown => {
            commands.push(WindowCommand::Hide);
            assert(commands@ =~= seq![WindowCommand::Hide]);
        },
        _ => {
            commands.push(WindowCommand::Show);
            commands.push(WindowCommand::SetFocus);
            assert(commands@ =~= seq![WindowCommand::Show, WindowCommand::SetFocus]);
        },
    }
    commands
}

/// Handles one event of the tray icon. A left click on the icon of a
/// window that is there flips the window; everything else asks for nothing.
pub fn on_tray_icon_event(event: TrayEvent, window: MainWindow) -> (commands: Vec<WindowCommand>)
    ensures
        commands@ == reaction(event, window),
        !event.left_click() ==> commands@.len() == 0,
{
    if !event.is_left_click() {
        return Vec::new();
    }
    match window {
        MainWindow::Present(visibility) => toggle(visibility),
        MainWindow::Missing => Vec::new(),
    }
}

/// What a toggle does to the window, for each visibility.
pub proof fn lemma_toggle_effect(visibility: Visibility)
    ensures
        visibility is Shown ==> visibility.after_all(toggle_commands(visibility))
            == Visibility::Hidden && !requests_focus(toggle_commands(visibility)),
        !(visibility is Shown) ==> visibility.after_all(toggle_commands(visibility))
            == Visibility::Shown && requests_focus(toggle_commands(visibility)),
{
    let commands = toggle_commands(visibility);
    if visibility is Shown {
        assert(commands.drop_last() =~= Seq::<WindowCommand>::empty());
        assert(visibility.after_all(commands.drop_last()) == visibility);
    } else {
        assert(commands.drop_last() =~= seq![WindowCommand::Show]);
        assert(commands.drop_last().drop_last() =~= Seq::<WindowCommand>::empty());
        assert(visibility.after_all(commands.drop_last().drop_last()) == visibility);
        assert(visibility.after_all(commands.drop_last()) == Visibility::Shown);
        assert(commands[1] == WindowCommand::SetFocus);
    }
}

/// A left click hides a shown window and asks for no focus; it shows a
/// hidden window and asks for focus; and where the visibility could not be
/// read it does as for a hidden window.
pub proof fn law_left_click_toggles(event: TrayEvent, visibility: Visibility)
    requires
        event.left_click(),
    ensures
        visibility is Shown ==> after_event(visibility, event) == Visibility::Hidden,
        visibility is Shown ==> !requests_focus(reaction(event, MainWindow::Present(visibility))),
        visibility is Hidden ==> after_event(visibility, event) == Visibility::Shown,
        visibility is Hidden ==> requests_focus(reaction(event, MainWindow::Present(visibility))),
        visibility is Unknown ==> reaction(event, MainWindow::Present(visibility)) == reaction(
            event,
            MainWindow::Present(Visibility::Hidden),
        ),
        visibility is Unknown ==> after_event(visibility, event) == Visibility::Shown,
        visibility is Unknown ==> requests_focus(reaction(event, MainWindow::Present(visibility))),
{
    lemma_toggle_effect(visibility);
}

/// An event that is no left click changes no visibility: it asks for
/// nothing at all, whatever the window.
pub proof fn law_other_events_change_nothing(
    event: TrayEvent,
    window: MainWindow,
    visibility: Visibility,
)
    requires
        !event.left_click(),
    ensures
        reaction(event, window) == Seq::<WindowCommand>::empty(),
        visibility.after_all(reaction(event, window)) == visibility,
        after_event(visibility, event) == visibility,
{
}

/// Two left clicks in a row, the second seeing what the first has left,
/// bring a window of known visibility back to where it was.
pub proof fn law_two_clicks_restore(event: TrayEvent, visibility: Visibility)
    requires
        event.left_click(),
        !(visibility is Unknown),
    ensures
        after_event(after_event(visibility, event), event) == visibility,
{
    lemma_toggle_effect(visibility);
    lemma_toggle_effect(after_event(visibility, event));
}

} // verus!
