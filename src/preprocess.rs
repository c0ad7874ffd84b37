//! Decisions of the frame conversion loop, which waits for an external
//! decoder to write numbered frame files.

use vstd::prelude::*;

verus! {

/// How often a missing frame file is looked for again while the decoder runs.
pub const MAX_RETRIES: u8 = 3;

/// The state of the decoder process when a frame file could not be read.
#[derive(Clone, Copy, Debug, PartialEq, Eq, Structural)]
pub enum DecoderStatus {
    /// Still running.
    Running,
    /// Exited, successfully or not.
    Exited(bool),
    /// Its state could not be read.
    Unknown,
}

/// What to do about a frame file that could not be read.
#[derive(Clone, Copy, Debug, PartialEq, Eq, Structural)]
pub enum MissingFrame {
    /// Wait and read the same file again.
    Retry,
    /// The decoder finished: all frames are converted.
    Done,
    /// Give up: the decoder runs but the file stays unreadable.
    GiveUp,
    /// The decoder failed, or its state is unknown.
    Failed,
}

/// Decide about a frame file that could not be read after `retries` retries;
/// returns the decision and the new retry count. While the decoder runs, the
/// file is tried again up to `MAX_RETRIES` times.
pub fn missing_frame(retries: u8, status: DecoderStatus) -> (r: (MissingFrame, u8))
    ensures
        r == (match status {
            DecoderStatus::Running => if retries >= MAX_RETRIES {
                (MissingFrame::GiveUp, retries)
            } else {
                (MissingFrame::Retry, (retries + 1) as u8)
            },
            DecoderStatus::Exited(success) => if success {
                (MissingFrame::Done, retries)
            } else {
                (MissingFrame::Failed, retries)
            },
            DecoderStatus::Unknown => (MissingFrame::Failed, retries),
        }),
{
    match status {
        DecoderStatus::Running => {
            if retries >= MAX_RETRIES {
                (MissingFrame::GiveUp, retries)
            } else {
                (MissingFrame::Retry, retries + 1)
            }
        },
        DecoderStatus::Exited(success) => {
            if success {
                (MissingFrame::Done, retries)
            } else {
                (MissingFrame::Failed, retries)
            }
        },
        DecoderStatus::Unknown => (MissingFrame::Failed, retries),
    }
}

} // verus!
