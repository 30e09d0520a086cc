//! Verified core of a tray-resident desktop to-do widget and its per-user
//! maintenance helper: installation-receipt policy, managed-resource
//! identities, launch admission, locale selection, settings normalization,
//! image payload codecs, weather cache policy and the pure window-placement
//! and input rules of the Windows host.
pub mod text;
pub mod locale;
pub mod admission;
pub mod appearance;
pub mod settings;
pub mod weather;
pub mod platform;
pub mod product_commands;
pub mod product_window;
pub mod qa_diagnostics;
pub mod reviews;
pub mod report;
pub mod task_day;
pub mod tasks;
pub mod database;
pub mod diagnostics;
pub mod maintenance;
