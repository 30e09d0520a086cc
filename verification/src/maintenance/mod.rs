//! Local, offline lifecycle policy of the maintenance helper.
pub mod command;
pub mod consent;
pub mod elevation;
pub mod error;
pub mod integration;
pub mod lifecycle;
pub mod lock;
pub mod paths;
pub mod receipt;
pub mod resources;
pub mod version;

use vstd::prelude::*;

verus! {

/// The product's application identity.
pub const APP_ID: &'static str = "net.alanfloyd.desktop";

/// File name of the main executable.
pub const MAIN_EXE: &'static str = "desktop-todo-widget.exe";

/// File name of the maintenance helper.
pub const HELPER_EXE: &'static str = "desktop-todo-maintenance.exe";

} // verus!
