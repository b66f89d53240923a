//! Errors of the embeddable client handle.
use vstd::prelude::*;

verus! {

/// Errors returned by [`crate::client::handle::RusnelHandle`].
#[derive(Debug)]
pub enum ClientError {
    /// A previous client task is still running, so a second `start` would lose
    /// lifecycle ownership.
    AlreadyRunning,
}

impl ClientError {
    /// The text of the error.
    pub fn message(&self) -> (text: String)
        ensures
            text@ == "rusnel client already running"@,
    {
        match self {
            ClientError::AlreadyRunning => "rusnel client already running".to_owned(),
        }
    }
}

} // verus!
