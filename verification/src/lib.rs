//! A minimal leveled logging facility.
//!
//! The library holds the verified core: the severity model and its filtering
//! policy, the logger configuration, timestamp rendering, and the dispatch
//! decision that turns a log request into a concrete emission plan. Console
//! and file writes are performed by the thin unverified shell around it.

pub mod dispatch;
pub mod severity;
pub mod state;
pub mod time;

pub use severity::LogLevel;
pub use severity::LogType;
pub use state::Logger;
pub use state::set_level;
pub use state::set_path;
pub use time::Timestamp;
pub use dispatch::Emission;
pub use dispatch::compose_entry;
pub use dispatch::plan_log;
pub use dispatch::plan_log_at;
