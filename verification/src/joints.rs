use vstd::prelude::*;
use crate::landmarks::{
    holds_landmark, landmark_of, Landmark, COORDS_PER_LANDMARK, LEFT_ANKLE, LEFT_ELBOW, LEFT_HIP,
    LEFT_KNEE, LEFT_SHOULDER, LEFT_WRIST, RIGHT_ANKLE, RIGHT_ELBOW, RIGHT_HIP, RIGHT_KNEE,
    RIGHT_SHOULDER, RIGHT_WRIST,
};

verus! {

/// A joint whose angle is measured, in the order in which the angles are
/// reported.
#[derive(Clone, Copy, Debug, PartialEq, Eq, Structural)]
pub enum Joint {
    LeftKnee,
    RightKnee,
    LeftElbow,
    RightElbow,
    LeftHip,
    RightHip,
}

/// Number of joints, and so of reported angles.
pub const JOINT_COUNT: usize = 6;

/// Fewest samples of a frame from which every joint angle can be read: the
/// landmarks up to and including the right ankle.
pub const REQUIRED_LEN: usize = (RIGHT_ANKLE + 1) * COORDS_PER_LANDMARK;

impl Joint {
    /// The value of [`Joint::slot`].
    pub open spec fn spec_slot(self) -> usize {
        match self {
            Joint::LeftKnee => 0,
            Joint::RightKnee => 1,
            Joint::LeftElbow => 2,
            Joint::RightElbow => 3,
            Joint::LeftHip => 4,
            Joint::RightHip => 5,
        }
    }

    /// Position of this joint's angle among the reported angles.
    #[verifier::when_used_as_spec(spec_slot)]
    pub fn slot(self) -> (slot: usize)
        ensures
            slot == self.spec_slot(),
            slot < JOINT_COUNT,
    {
        match self {
            Joint::LeftKnee => 0,
            Joint::RightKnee => 1,
            Joint::LeftElbow => 2,
            Joint::RightElbow => 3,
            Joint::LeftHip => 4,
            Joint::RightHip => 5,
        }
    }

    /// The value of [`Joint::at_slot`].
    pub open spec fn spec_at_slot(slot: usize) -> Option<Joint> {
        if slot == 0 {
            Some(Joint::LeftKnee)
        } else if slot == 1 {
            Some(Joint::RightKnee)
        } else if slot == 2 {
            Some(Joint::LeftElbow)
        } else if slot == 3 {
            Some(Joint::RightElbow)
        } else if slot == 4 {
            Some(Joint::LeftHip)
        } else if slot == 5 {
            Some(Joint::RightHip)
        } else {
            None
        }
    }

    /// The joint whose angle is reported at `slot`, if there is one.
    #[verifier::when_used_as_spec(spec_at_slot)]
    pub fn at_slot(slot: usize) -> (joint: Option<Joint>)
        ensures
            joint == Joint::spec_at_slot(slot),
            joint is Some <==> slot < JOINT_COUNT,
            joint matches Some(j) ==> j.slot() == slot,
    {
        match slot {
            0 => Some(Joint::LeftKnee),
            1 => Some(Joint::RightKnee),
            2 => Some(Joint::LeftElbow),
            3 => Some(Joint::RightElbow),
            4 => Some(Joint::LeftHip),
            5 => Some(Joint::RightHip),
            _ => None,
        }
    }

    /// The value of [`Joint::vertex`].
    pub open spec fn spec_vertex(self) -> usize {
        match self {
            Joint::LeftKnee => LEFT_KNEE,
            Joint::RightKnee => RIGHT_KNEE,
            Joint::LeftElbow => LEFT_ELBOW,
            Joint::RightElbow => RIGHT_ELBOW,
            Joint::LeftHip => LEFT_HIP,
            Joint::RightHip => RIGHT_HIP,
        }
    }

    /// The landmark at which the angle is measured.
    #[verifier::when_used_as_spec(spec_vertex)]
    pub fn vertex(self) -> (index: usize)
        ensures
            index == self.spec_vertex(),
    {
        match self {
            Joint::LeftKnee => LEFT_KNEE,
            Joint::RightKnee => RIGHT_KNEE,
            Joint::LeftElbow => LEFT_ELBOW,
            Joint::RightElbow => RIGHT_ELBOW,
            Joint::LeftHip => LEFT_HIP,
            Joint::RightHip => RIGHT_HIP,
        }
    }

    /// The value of [`Joint::start`].
    pub open spec fn spec_start(self) -> usize {
        match self {
            Joint::LeftKnee => LEFT_HIP,
            Joint::RightKnee => RIGHT_HIP,
            Joint::LeftElbow => LEFT_SHOULDER,
            Joint::RightElbow => RIGHT_SHOULDER,
            Joint::LeftHip => LEFT_SHOULDER,
            Joint::RightHip => RIGHT_SHOULDER,
        }
    }

    /// The landmark toward which the first ray points, the one nearer the
    /// trunk.
    #[verifier::when_used_as_spec(spec_start)]
    pub fn start(self) -> (index: usize)
        ensures
            index == self.spec_start(),
    {
        match self {
            Joint::LeftKnee => LEFT_HIP,
            Joint::RightKnee => RIGHT_HIP,
            Joint::LeftElbow => LEFT_SHOULDER,
            Joint::RightElbow => RIGHT_SHOULDER,
            Joint::LeftHip => LEFT_SHOULDER,
            Joint::RightHip => RIGHT_SHOULDER,
        }
    }

    /// The value of [`Joint::end`].
    pub open spec fn spec_end(self) -> usize {
        match self {
            Joint::LeftKnee => LEFT_ANKLE,
            Joint::RightKnee => RIGHT_ANKLE,
            Joint::LeftElbow => LEFT_WRIST,
            Joint::RightElbow => RIGHT_WRIST,
            Joint::LeftHip => LEFT_KNEE,
            Joint::RightHip => RIGHT_KNEE,
        }
    }

    /// The landmark toward which the second ray points, the one farther
    /// along the limb.
    #[verifier::when_used_as_spec(spec_end)]
    pub fn end(self) -> (index: usize)
        ensures
            index == self.spec_end(),
    {
        match self {
            Joint::LeftKnee => LEFT_ANKLE,
            Joint::RightKnee => RIGHT_ANKLE,
            Joint::LeftElbow => LEFT_WRIST,
            Joint::RightElbow => RIGHT_WRIST,
            Joint::LeftHip => LEFT_KNEE,
            Joint::RightHip => RIGHT_KNEE,
        }
    }
}

/// Whether a frame of `len` samples holds the three landmarks of `joint`.
pub open spec fn holds_joint(len: int, joint: Joint) -> bool {
    &&& holds_landmark(len, joint.start() as int)
    &&& holds_landmark(len, joint.vertex() as int)
    &&& holds_landmark(len, joint.end() as int)
}

/// The three points of a joint in a frame: where the first ray points, the
/// vertex, and where the second ray points.
pub open spec fn joint_points<T>(frame: Seq<T>, joint: Joint) -> (
    Landmark<T>,
    Landmark<T>,
    Landmark<T>,
) {
    (
        landmark_of(frame, joint.start() as int),
        landmark_of(frame, joint.vertex() as int),
        landmark_of(frame, joint.end() as int),
    )
}

/// A frame holds the landmarks of every joint exactly when it has
/// `REQUIRED_LEN` samples or more.
pub proof fn required_len_serves_every_joint(len: int)
    ensures
        (forall|joint: Joint| holds_joint(len, joint)) <==> len >= REQUIRED_LEN,
{
    if len < REQUIRED_LEN {
        assert(!holds_joint(len, Joint::RightKnee));
    }
}

/// Each slot below `JOINT_COUNT` belongs to one joint, and no two joints
/// share a slot.
pub proof fn slots_number_the_joints()
    ensures
        forall|joint: Joint| Joint::at_slot(#[trigger] joint.slot()) == Some(joint),
        forall|a: Joint, b: Joint| a.slot() == b.slot() ==> a == b,
{
}

} // verus!
