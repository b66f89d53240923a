//! How a client session ended, and the exit reason that stands for it.
use vstd::prelude::*;

use crate::client::lifecycle::{ExitReason, ExitReasonView};

verus! {

/// How the future of a client session ended.
#[derive(Debug)]
pub enum SessionOutcome {
    /// The client returned successfully.
    Returned,
    /// The client returned an error, given by its text.
    Failed(String),
    /// The client panicked.
    Panicked {
        /// The payload, where it is a string slice.
        slice: Option<String>,
        /// The payload, where it is an owned string.
        owned: Option<String>,
    },
}

impl SessionOutcome {
    /// The exit reason of a session that ended so. A panic is told by its payload where that is
    /// text, a string slice before an owned string.
    pub open spec fn reason(&self) -> ExitReasonView {
        match self {
            SessionOutcome::Returned => ExitReasonView::Clean,
            SessionOutcome::Failed(text) => ExitReasonView::Error(text@),
            SessionOutcome::Panicked { slice: Some(text), owned: _ } => ExitReasonView::Panic(text@),
            SessionOutcome::Panicked { slice: None, owned: Some(text) } => ExitReasonView::Panic(
                text@,
            ),
            SessionOutcome::Panicked { slice: None, owned: None } => ExitReasonView::Panic(
                "unknown panic"@,
            ),
        }
    }

    /// Maps a terminal path of a session to its exit reason.
    pub fn exit_reason(self) -> (reason: ExitReason)
        ensures
            reason is Clean <==> self is Returned,
            reason is Error <==> self is Failed,
            reason is Panic <==> self is Panicked,
            self matches SessionOutcome::Failed(text) ==> reason == ExitReason::Error(text),
            self matches SessionOutcome::Panicked { slice: Some(text), owned: _ } ==> reason
                == ExitReason::Panic(text),
            self matches SessionOutcome::Panicked { slice: None, owned: Some(text) } ==> reason
                == ExitReason::Panic(text),
            self matches SessionOutcome::Panicked { slice: None, owned: None } ==> reason@
                == ExitReasonView::Panic("unknown panic"@),
            reason@ == self.reason(),
    {
        match self {
            SessionOutcome::Returned => ExitReason::Clean,
            SessionOutcome::Failed(text) => ExitReason::Error(text),
            SessionOutcome::Panicked { slice, owned } => {
                let text = match slice {
                    Some(text) => text,
                    None => match owned {
                        Some(text) => text,
                        None => "unknown panic".to_owned(),
                    },
                };
                ExitReason::Panic(text)
            },
        }
    }
}

} // verus!
