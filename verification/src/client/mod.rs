//! The embeddable client: its lifecycle model and the handle that drives it.
pub mod channel;
pub mod crypto;
pub mod error;
pub mod handle;
pub mod laws;
pub mod lifecycle;
pub mod session;
pub mod task;
