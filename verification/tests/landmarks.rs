use pose_math::joints::JOINT_COUNT;
use pose_math::landmarks::{
    landmark_at, landmark_count, COORDS_PER_LANDMARK, LEFT_ANKLE, LEFT_ELBOW, LEFT_HIP, LEFT_KNEE,
    LEFT_SHOULDER, LEFT_WRIST, RIGHT_ANKLE, RIGHT_ELBOW, RIGHT_HIP, RIGHT_KNEE, RIGHT_SHOULDER,
    RIGHT_WRIST,
};
use pose_math::Joint;
use pose_math::Landmark;
use pose_math::PoseError;

const JOINTS: [Joint; 6] = [
    Joint::LeftKnee,
    Joint::RightKnee,
    Joint::LeftElbow,
    Joint::RightElbow,
    Joint::LeftHip,
    Joint::RightHip,
];

#[test]
fn landmark_is_three_consecutive_samples() {
    let frame: Vec<f32> = vec![0.5, 1.5, 2.5, 3.5, 4.5, 5.5];
    assert_eq!(landmark_at(&frame, 0), Some(Landmark { x: 0.5, y: 1.5, z: 2.5 }));
    assert_eq!(landmark_at(&frame, 1), Some(Landmark { x: 3.5, y: 4.5, z: 5.5 }));
}

#[test]
fn landmark_past_the_end_is_absent() {
    let frame: Vec<u8> = vec![1, 2, 3, 4, 5, 6];
    assert_eq!(landmark_at(&frame, 2), None);
    assert_eq!(landmark_at(&frame, usize::MAX), None);
    assert_eq!(landmark_at(&frame, usize::MAX / 3 + 1), None);
    let empty: Vec<u8> = Vec::new();
    assert_eq!(landmark_at(&empty, 0), None);
}

#[test]
fn incomplete_last_landmark_is_absent() {
    let frame: Vec<u8> = vec![1, 2, 3, 4, 5];
    assert_eq!(landmark_at(&frame, 0), Some(Landmark { x: 1, y: 2, z: 3 }));
    assert_eq!(landmark_at(&frame, 1), None);
}

#[test]
fn whole_landmarks_are_counted() {
    assert_eq!(COORDS_PER_LANDMARK, 3);
    for (len, count) in [(0usize, 0usize), (1, 0), (2, 0), (3, 1), (5, 1), (6, 2), (87, 29), (99, 33)] {
        let frame: Vec<u8> = vec![0; len];
        assert_eq!(landmark_count(&frame), count);
    }
}

#[test]
fn landmarks_have_their_numbers() {
    assert_eq!(
        [LEFT_SHOULDER, RIGHT_SHOULDER, LEFT_ELBOW, RIGHT_ELBOW, LEFT_WRIST, RIGHT_WRIST],
        [11, 12, 13, 14, 15, 16]
    );
    assert_eq!(
        [LEFT_HIP, RIGHT_HIP, LEFT_KNEE, RIGHT_KNEE, LEFT_ANKLE, RIGHT_ANKLE],
        [23, 24, 25, 26, 27, 28]
    );
}

#[test]
fn joints_name_their_landmarks() {
    let table: Vec<(usize, usize, usize)> =
        JOINTS.iter().map(|j| (j.start(), j.vertex(), j.end())).collect();
    assert_eq!(
        table,
        vec![
            (LEFT_HIP, LEFT_KNEE, LEFT_ANKLE),
            (RIGHT_HIP, RIGHT_KNEE, RIGHT_ANKLE),
            (LEFT_SHOULDER, LEFT_ELBOW, LEFT_WRIST),
            (RIGHT_SHOULDER, RIGHT_ELBOW, RIGHT_WRIST),
            (LEFT_SHOULDER, LEFT_HIP, LEFT_KNEE),
            (RIGHT_SHOULDER, RIGHT_HIP, RIGHT_KNEE),
        ]
    );
}

#[test]
fn slots_follow_the_reporting_order() {
    assert_eq!(JOINT_COUNT, 6);
    for (slot, joint) in JOINTS.iter().enumerate() {
        assert_eq!(joint.slot(), slot);
        assert_eq!(Joint::at_slot(slot), Some(*joint));
    }
    assert_eq!(Joint::at_slot(6), None);
    assert_eq!(Joint::at_slot(usize::MAX), None);
}

#[test]
fn errors_describe_themselves() {
    assert_eq!(
        PoseError::OutOfRange.message(),
        "landmark buffer is too short for the joint angles"
    );
    assert_eq!(
        PoseError::LengthMismatch.message(),
        "previous frame is shorter than the current frame"
    );
    assert_ne!(PoseError::OutOfRange, PoseError::LengthMismatch);
}
