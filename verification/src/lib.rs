//! Programmatic lifecycle control for an embedded Rusnel client.
pub mod client;

pub use crate::client::channel::MAX_EVENT_CAPACITY;
pub use crate::client::error::ClientError;
pub use crate::client::handle::{RusnelHandle, STOP_TIMEOUT_SECS};
pub use crate::client::lifecycle::{ExitReason, LifecycleState, RusnelEvent};
pub use crate::client::session::SessionOutcome;
pub use crate::client::task::{RunningTask, WaitOutcome};
