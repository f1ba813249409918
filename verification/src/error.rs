use vstd::prelude::*;

verus! {

/// Why a frame was refused.
#[derive(Clone, Copy, Debug, PartialEq, Eq, Structural)]
pub enum PoseError {
    /// The landmark buffer ends before a coordinate that the joint angles read.
    OutOfRange,
    /// The previous frame holds samples, but fewer than the current frame.
    LengthMismatch,
}

impl PoseError {
    /// The text of [`PoseError::message`].
    pub open spec fn message_text(self) -> Seq<char> {
        match self {
            PoseError::OutOfRange => "landmark buffer is too short for the joint angles"@,
            PoseError::LengthMismatch => "previous frame is shorter than the current frame"@,
        }
    }

    /// A one-line description for the caller to raise or log.
    pub fn message(&self) -> (text: &'static str)
        ensures
            text@ == self.message_text(),
    {
        match self {
            PoseError::OutOfRange => "landmark buffer is too short for the joint angles",
            PoseError::LengthMismatch => "previous frame is shorter than the current frame",
        }
    }
}

} // verus!
