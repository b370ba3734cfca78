//! The logic of the Ermete desktop: the dock's pins, the greeter's login with
//! greetd, what the shell and the settings read from the compositor and from
//! system commands, the notification list, the updater's and the portal's
//! decisions.
use vstd::prelude::*;

pub mod text;
pub mod output;
pub mod json;
pub mod order;
pub mod dock;
pub mod greeter;
pub mod niri;
pub mod system;
pub mod settings;
pub mod notifications;
pub mod updater;
pub mod portal;
pub mod telemetry;
pub mod watcher;

verus! {
}
