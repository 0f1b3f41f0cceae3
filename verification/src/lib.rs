//! Service descriptors and unit control for scripts run as supervised
//! background services.
//!
//! The crate derives a canonical unit identity from a name or a file path,
//! renders the unit-file text for it, escapes the identity into the object
//! path under which the init daemon exposes the unit, and decides what to ask
//! of the daemon and how to read what it answers.
pub mod text;
pub mod escape;
pub mod names;
pub mod descriptor;
pub mod object_path;
pub mod control;
pub mod flow;
pub mod handlers;
pub mod process_status;
