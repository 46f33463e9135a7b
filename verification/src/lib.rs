//! A tap logger: describe a value in one leveled log record and hand the value
//! back untouched, so the call can sit in the middle of an expression chain.
//!
//! The library decides what the record says and which severity channel it is
//! for. How a value is rendered as text comes from the caller, and handing the
//! record to a logging backend is left to the caller too.

pub mod level;
pub mod record;
pub mod tap_log;

pub use level::Level;
pub use record::Record;
pub use tap_log::TapLog;
