//! Shell lifecycle and event-routing core of a desktop application.
//!
//! The library holds every decision the native shell makes: sequencing the
//! splash-to-main startup transition, toggling tray-driven window visibility,
//! dispatching menu commands, filtering deep-link callback URLs, normalizing
//! update-check outcomes, and reacting to a second process launch. Each
//! decision is a pure, verified function from observed state and event to the
//! next state and the action owed to the host platform layer; the host layer
//! itself (windowing, tray, networking) performs those actions outside this
//! crate.

pub mod deeplink;
pub mod instance;
pub mod menu;
pub mod settings;
pub mod startup;
pub mod text;
pub mod tray;
pub mod update;
pub mod windows;
