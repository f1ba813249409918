use vstd::prelude::*;
use crate::error::PoseError;
use crate::joints::{
    holds_joint, joint_points, required_len_serves_every_joint, Joint, JOINT_COUNT, REQUIRED_LEN,
};
use crate::landmarks::{read_landmark, Landmark};

verus! {

/// Measures one joint of a frame that holds its three landmarks.
fn joint_angle<T: Copy, A, F: Fn(Landmark<T>, Landmark<T>, Landmark<T>) -> A>(
    frame: &[T],
    joint: Joint,
    angle_at: &F,
) -> (angle: A)
    requires
        holds_joint(frame@.len() as int, joint),
        angle_at.requires(joint_points(frame@, joint)),
    ensures
        angle_at.ensures(joint_points(frame@, joint), angle),
{
    let start = read_landmark(frame, joint.start());
    let vertex = read_landmark(frame, joint.vertex());
    let end = read_landmark(frame, joint.end());
    angle_at(start, vertex, end)
}

/// Measures the six joints of a frame.
///
/// For each joint, `angle_at` receives the landmark toward which the first
/// ray points, the vertex and the landmark toward which the second ray
/// points, and what it gives is stored at the joint's slot: left knee, right
/// knee, left elbow, right elbow, left hip, right hip. A frame of fewer than
/// `REQUIRED_LEN` samples is refused, and `angle_at` is not called; samples
/// beyond those of the right ankle are not read.
pub fn compute_angles<T: Copy, A, F: Fn(Landmark<T>, Landmark<T>, Landmark<T>) -> A>(
    landmarks: &[T],
    angle_at: F,
) -> (angles: Result<[A; 6], PoseError>)
    requires
        landmarks@.len() >= REQUIRED_LEN ==> forall|joint: Joint|
            angle_at.requires(#[trigger] joint_points(landmarks@, joint)),
    ensures
        match angles {
            Ok(measured) => {
                &&& landmarks@.len() >= REQUIRED_LEN
                &&& forall|joint: Joint|
                    angle_at.ensures(
                        #[trigger] joint_points(landmarks@, joint),
                        measured@[joint.slot() as int],
                    )
            },
            Err(e) => e == PoseError::OutOfRange && landmarks@.len() < REQUIRED_LEN,
        },
{
    if landmarks.len() < REQUIRED_LEN {
        return Err(PoseError::OutOfRange);
    }
    proof {
        required_len_serves_every_joint(landmarks@.len() as int);
    }
    let left_knee = joint_angle(landmarks, Joint::LeftKnee, &angle_at);
    let right_knee = joint_angle(landmarks, Joint::RightKnee, &angle_at);
    let left_elbow = joint_angle(landmarks, Joint::LeftElbow, &angle_at);
    let right_elbow = joint_angle(landmarks, Joint::RightElbow, &angle_at);
    let left_hip = joint_angle(landmarks, Joint::LeftHip, &angle_at);
    let right_hip = joint_angle(landmarks, Joint::RightHip, &angle_at);
    Ok([left_knee, right_knee, left_elbow, right_elbow, left_hip, right_hip])
}

/// No slot of the reported angles is left over: where each joint's slot holds
/// what `angle_at` gave for that joint, every slot below `JOINT_COUNT` holds
/// what `angle_at` gave for the joint of that slot. So whatever holds of all
/// that `angle_at` gives holds of every reported angle.
pub proof fn every_slot_is_measured<T, A, F: Fn(Landmark<T>, Landmark<T>, Landmark<T>) -> A>(
    angle_at: F,
    frame: Seq<T>,
    measured: Seq<A>,
    slot: int,
)
    requires
        forall|joint: Joint|
            angle_at.ensures(#[trigger] joint_points(frame, joint), measured[joint.slot() as int]),
        0 <= slot < JOINT_COUNT,
    ensures
        Joint::at_slot(slot as usize) matches Some(joint) && angle_at.ensures(
            joint_points(frame, joint),
            measured[slot],
        ),
{
    let joint = Joint::at_slot(slot as usize).unwrap();
    assert(joint.slot() == slot);
    assert(angle_at.ensures(joint_points(frame, joint), measured[joint.slot() as int]));
}

} // verus!
