//! Supervision core for a single external GUI application on Windows.
//!
//! The crate models the control decisions of the supervisor as verified
//! functions over plain values: every observation made of the operating
//! system (an enumerated window list, the raw return value of an API call,
//! the last error code) is handed in as an argument, and every request the
//! supervisor makes of the operating system (terminate a process, close a
//! handle, unregister a wait) comes back out as an explicit value. The
//! thin layer that actually performs those calls lives outside the library.

pub mod future_helper;
pub mod process;
pub mod sigint_helper;
pub mod supervisor;
pub mod windows_helper;

pub use windows_helper::ApiFunction;
pub use windows_helper::OsAction;
pub use windows_helper::OsError;
