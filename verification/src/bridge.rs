//! Decision logic of the capture synchronization bridge. The embedding layer
//! owns the external surface: it registers a single-use subscription, injects
//! the extraction script, waits on a fresh one-slot channel for at most the
//! capture timeout, and decodes the payload it received, if any. What it
//! observed is handed to the store as a `CaptureOutcome`; only a decoded
//! payload touches the comment collection, and only by appending.

use vstd::prelude::*;

use crate::model::{CoreError, ReviewComment};
use crate::store::AppState;

verus! {

/// How one capture invocation ended, as the embedding layer observed it:
/// a payload decoded into comments, a payload that would not decode, or no
/// event before the timeout elapsed.
pub enum CaptureOutcome {
    Decoded(Vec<ReviewComment>),
    Malformed,
    NoEvent,
}

/// The number of seconds a capture invocation waits for the result event.
pub fn capture_timeout_secs() -> (r: u64)
    ensures
        r == 5,
{
    5
}

/// The precondition check of a capture: the review surface must already be
/// open, else the capture fails without touching anything.
pub fn capture_preflight(surface_open: bool) -> (r: Result<(), CoreError>)
    ensures
        surface_open ==> r == Ok::<(), CoreError>(()),
        !surface_open ==> r == Err::<(), CoreError>(CoreError::SurfaceNotOpen),
{
    if surface_open {
        Ok(())
    } else {
        Err(CoreError::SurfaceNotOpen)
    }
}

impl AppState {
    /// Merges the outcome of one capture invocation into the store. Decoded
    /// comments are appended and returned; a timeout or a decode failure
    /// reports its error and leaves every collection unchanged — there is no
    /// partial merge.
    pub fn merge_capture_outcome(&mut self, outcome: CaptureOutcome) -> (r: Result<
        Vec<ReviewComment>,
        CoreError,
    >)
        ensures
            final(self).pairs@ == old(self).pairs@,
            final(self).metrics@ == old(self).metrics@,
            match outcome {
                CaptureOutcome::Decoded(cs) => {
                    &&& final(self).comments@ == old(self).comments@ + cs@
                    &&& r matches Ok(out) && out@ == cs@
                },
                CaptureOutcome::Malformed => {
                    &&& final(self).comments@ == old(self).comments@
                    &&& r == Err::<Vec<ReviewComment>, CoreError>(CoreError::CaptureDecodeError)
                },
                CaptureOutcome::NoEvent => {
                    &&& final(self).comments@ == old(self).comments@
                    &&& r == Err::<Vec<ReviewComment>, CoreError>(CoreError::CaptureTimeout)
                },
            },
    {
        match outcome {
            CaptureOutcome::Decoded(cs) => {
                self.add_review_comments(&cs);
                Ok(cs)
            },
            CaptureOutcome::Malformed => Err(CoreError::CaptureDecodeError),
            CaptureOutcome::NoEvent => Err(CoreError::CaptureTimeout),
        }
    }
}

} // verus!
