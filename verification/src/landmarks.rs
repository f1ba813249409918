use vstd::prelude::*;

verus! {

/// Coordinates stored per landmark: `x`, `y`, `z`, in that order.
pub const COORDS_PER_LANDMARK: usize = 3;

// Numbers of the landmarks that the joint angles read, in the ordering of the
// 33-landmark body model: the landmark numbered `n` occupies the samples
// `3 * n`, `3 * n + 1` and `3 * n + 2` of a frame.

pub const LEFT_SHOULDER: usize = 11;

pub const RIGHT_SHOULDER: usize = 12;

pub const LEFT_ELBOW: usize = 13;

pub const RIGHT_ELBOW: usize = 14;

pub const LEFT_WRIST: usize = 15;

pub const RIGHT_WRIST: usize = 16;

pub const LEFT_HIP: usize = 23;

pub const RIGHT_HIP: usize = 24;

pub const LEFT_KNEE: usize = 25;

pub const RIGHT_KNEE: usize = 26;

pub const LEFT_ANKLE: usize = 27;

pub const RIGHT_ANKLE: usize = 28;

/// One landmark: a point in space, made of three consecutive samples of a
/// frame.
#[derive(Debug, PartialEq)]
pub struct Landmark<T> {
    pub x: T,
    pub y: T,
    pub z: T,
}

impl<T: Copy> Copy for Landmark<T> {

}

impl<T: Copy> Clone for Landmark<T> {
    fn clone(&self) -> (copy: Self)
        ensures
            copy == *self,
    {
        *self
    }
}

/// Whether a frame of `len` samples holds all three coordinates of the
/// landmark numbered `index`.
pub open spec fn holds_landmark(len: int, index: int) -> bool {
    0 <= index && COORDS_PER_LANDMARK * index + COORDS_PER_LANDMARK <= len
}

/// The landmark numbered `index` of a frame: the samples at positions
/// `3 * index`, `3 * index + 1` and `3 * index + 2`.
pub open spec fn landmark_of<T>(frame: Seq<T>, index: int) -> Landmark<T> {
    Landmark {
        x: frame[COORDS_PER_LANDMARK * index],
        y: frame[COORDS_PER_LANDMARK * index + 1],
        z: frame[COORDS_PER_LANDMARK * index + 2],
    }
}

/// Reads one landmark of a frame that is known to hold it.
pub(crate) fn read_landmark<T: Copy>(frame: &[T], index: usize) -> (point: Landmark<T>)
    requires
        holds_landmark(frame@.len() as int, index as int),
    ensures
        point == landmark_of(frame@, index as int),
{
    assert(frame@.len() <= usize::MAX) by {
        vstd::slice::axiom_spec_len(frame);
    }
    let base: usize = index * COORDS_PER_LANDMARK;
    Landmark { x: frame[base], y: frame[base + 1], z: frame[base + 2] }
}

/// Number of whole landmarks in a frame: those, and only those, below this
/// number are held by it.
pub fn landmark_count<T>(frame: &[T]) -> (count: usize)
    ensures
        count == frame@.len() / COORDS_PER_LANDMARK as nat,
        forall|index: int| 0 <= index < count <==> holds_landmark(frame@.len() as int, index),
{
    frame.len() / COORDS_PER_LANDMARK
}

/// Reads the landmark numbered `index`, or nothing where the frame ends
/// before its third coordinate.
pub fn landmark_at<T: Copy>(frame: &[T], index: usize) -> (found: Option<Landmark<T>>)
    ensures
        found is Some <==> holds_landmark(frame@.len() as int, index as int),
        found matches Some(point) ==> point == landmark_of(frame@, index as int),
{
    if index < landmark_count(frame) {
        Some(read_landmark(frame, index))
    } else {
        None
    }
}

} // verus!
