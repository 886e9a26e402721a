use vstd::prelude::*;
use crate::text::same_text;

verus! {

/// Logical name of the main application window.
pub const MAIN_WINDOW: &'static str = "main";

/// Tooltip shown on the tray icon.
pub const TRAY_TOOLTIP: &'static str = "StarScope - GitHub Project Intelligence";

/// What the user asked for through the tray.
#[derive(Clone, Copy, PartialEq, Eq, Structural, Debug)]
pub enum TrayAction {
    Show,
    RefreshAll,
    Quit,
}

/// Mouse button of a click on the tray icon.
#[derive(Clone, Copy, PartialEq, Eq, Structural, Debug)]
pub enum MouseButton {
    Left,
    Right,
    Middle,
}

/// Whether a tray icon click event reports the button going down or up.
#[derive(Clone, Copy, PartialEq, Eq, Structural, Debug)]
pub enum ButtonState {
    Up,
    Down,
}

/// Named notification emitted to the main window.
#[derive(Clone, Copy, PartialEq, Eq, Structural, Debug)]
pub enum Notification {
    RefreshAll,
}

/// One thing to do to the main window or the application.
#[derive(Clone, Copy, PartialEq, Eq, Structural, Debug)]
pub enum UiStep {
    ShowWindow,
    FocusWindow,
    Emit(Notification),
    Exit(i32),
}

impl TrayAction {
    /// Identifier of the menu item for this action.
    pub open spec fn id_of(self) -> Seq<char> {
        match self {
            TrayAction::Show => "show"@,
            TrayAction::RefreshAll => "refresh"@,
            TrayAction::Quit => "quit"@,
        }
    }

    /// Text of the menu item for this action.
    pub open spec fn label_of(self) -> Seq<char> {
        match self {
            TrayAction::Show => "Show StarScope"@,
            TrayAction::RefreshAll => "Refresh All"@,
            TrayAction::Quit => "Quit"@,
        }
    }

    pub fn menu_id(&self) -> (r: &'static str)
        ensures
            r@ == self.id_of(),
    {
        match self {
            TrayAction::Show => "show",
            TrayAction::RefreshAll => "refresh",
            TrayAction::Quit => "quit",
        }
    }

    pub fn menu_label(&self) -> (r: &'static str)
        ensures
            r@ == self.label_of(),
    {
        match self {
            TrayAction::Show => "Show StarScope",
            TrayAction::RefreshAll => "Refresh All",
            TrayAction::Quit => "Quit",
        }
    }

    /// The action of the menu item with identifier `id`; unknown
    /// identifiers select nothing.
    pub fn from_menu_id(id: &str) -> (r: Option<TrayAction>)
        ensures
            r == menu_action(id@),
    {
        if same_text(id, "show") {
            Some(TrayAction::Show)
        } else if same_text(id, "refresh") {
            Some(TrayAction::RefreshAll)
        } else if same_text(id, "quit") {
            Some(TrayAction::Quit)
        } else {
            None
        }
    }

    /// The action of a click on the tray icon: releasing the left button
    /// shows the window, anything else does nothing.
    pub fn from_click(button: MouseButton, state: ButtonState) -> (r: Option<TrayAction>)
        ensures
            r == (if button == MouseButton::Left && state == ButtonState::Up {
                Some(TrayAction::Show)
            } else {
                None
            }),
    {
        match (button, state) {
            (MouseButton::Left, ButtonState::Up) => Some(TrayAction::Show),
            _ => None,
        }
    }
}

/// The action selected by a menu identifier.
pub open spec fn menu_action(id: Seq<char>) -> Option<TrayAction> {
    if id == TrayAction::Show.id_of() {
        Some(TrayAction::Show)
    } else if id == TrayAction::RefreshAll.id_of() {
        Some(TrayAction::RefreshAll)
    } else if id == TrayAction::Quit.id_of() {
        Some(TrayAction::Quit)
    } else {
        None
    }
}

/// The tray menu, in display order.
pub fn tray_menu() -> (r: Vec<TrayAction>)
    ensures
        r@ == seq![TrayAction::Show, TrayAction::RefreshAll, TrayAction::Quit],
{
    vec![TrayAction::Show, TrayAction::RefreshAll, TrayAction::Quit]
}

impl Notification {
    pub open spec fn name_of(self) -> Seq<char> {
        match self {
            Notification::RefreshAll => "refresh-all"@,
        }
    }

    /// Event name under which the notification is emitted.
    pub fn event_name(&self) -> (r: &'static str)
        ensures
            r@ == self.name_of(),
    {
        match self {
            Notification::RefreshAll => "refresh-all",
        }
    }
}

/// What a tray action does, given whether the main window exists. Showing
/// is show then focus; a refresh is one notification; both do nothing
/// without a window. Quitting exits with code 0 whatever else holds; no
/// action consults the worker.
pub open spec fn action_steps(action: TrayAction, main_window_present: bool) -> Seq<UiStep> {
    match action {
        TrayAction::Show => if main_window_present {
            seq![UiStep::ShowWindow, UiStep::FocusWindow]
        } else {
            Seq::empty()
        },
        TrayAction::RefreshAll => if main_window_present {
            seq![UiStep::Emit(Notification::RefreshAll)]
        } else {
            Seq::empty()
        },
        TrayAction::Quit => seq![UiStep::Exit(0)],
    }
}

/// The steps that carry out a tray action.
pub fn tray_action_steps(action: TrayAction, main_window_present: bool) -> (r: Vec<UiStep>)
    ensures
        r@ == action_steps(action, main_window_present),
{
    match action {
        TrayAction::Show => if main_window_present {
            vec![UiStep::ShowWindow, UiStep::FocusWindow]
        } else {
            Vec::new()
        },
        TrayAction::RefreshAll => if main_window_present {
            vec![UiStep::Emit(Notification::RefreshAll)]
        } else {
            Vec::new()
        },
        TrayAction::Quit => vec![UiStep::Exit(0)],
    }
}

/// A refresh with no main window does nothing at all.
pub proof fn refresh_without_window_is_silent()
    ensures
        action_steps(TrayAction::RefreshAll, false).len() == 0,
{
}

/// Quitting is a single exit with code 0, with or without a window; the
/// steps take no worker state, so they are the same whether a worker runs.
pub proof fn quit_always_exits_cleanly(main_window_present: bool)
    ensures
        action_steps(TrayAction::Quit, main_window_present) == seq![UiStep::Exit(0)],
{
}

} // verus!
