//! Autostart manager: registers, unregisters and queries an executable that
//! should run at user login, together with the settings and ping decisions of
//! the surrounding tray application.
//!
//! The crate separates decisions from operating-system work.  Every operation
//! is planned as an [`request::OsRequest`] value with an exact contract: what
//! registry arguments or launch-agent file the request names, and what it
//! holds.  An unverified shell executes the request against the real system
//! and hands the outcome back to the verified interpreters.  The state-level
//! guarantees (enabling makes the entry queryable, disabling clears it, the
//! stored artifact round-trips the executable path) are proved in [`laws`]
//! over a map model of the operating-system store.

pub mod error;
pub mod laws;
pub mod platform;
pub mod plist;
pub mod registry;
pub mod request;
pub mod settings;
