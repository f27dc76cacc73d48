//! Marshaling core for a C-callable auto-splitting bridge.
//!
//! The crate holds the typed half of a boundary layer between a host
//! application and a sandboxed script engine: a reusable output buffer with
//! clear-then-append semantics, a settings store and its read-only map view,
//! the script-declared settings schema and its value resolution, the timer
//! callback bridge's state and duration translations, and the log severity
//! filter. The raw C surface (pointers, function pointers, the engine itself)
//! lives outside this crate and hands plain values in and out.

pub mod logger;
pub mod output;
pub mod settings;
pub mod timer;
pub mod user_settings;
