//! Supervision of the worker process that runs beside the StarScope desktop
//! shell: starting it with graceful degradation, holding its handle for the
//! lifetime of the application, stopping it at most once, and deciding what
//! each tray action does to the main window.

use vstd::prelude::*;

mod commands;
mod launch;
mod shutdown;
mod store;
mod text;
mod tray;

pub use commands::greet;
pub use launch::{
    launch, settle_spawn, start, LaunchFailure, APP_DATA_DIR_VAR, WORKER_NAME,
};
pub use shutdown::{on_close_requested, settle_termination, CloseOutcome};
pub use store::{HandleStore, SupervisionState};
pub use tray::{
    tray_action_steps, tray_menu, ButtonState, MouseButton, Notification, TrayAction, UiStep,
    MAIN_WINDOW, TRAY_TOOLTIP,
};

verus! {

/// Log filter used when the environment sets none.
pub const DEFAULT_LOG_FILTER: &'static str = "info";

} // verus!
