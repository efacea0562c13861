//! Axis bookkeeping for faces: planes perpendicular to one coordinate axis,
//! clipped to a rectangular window on the other two axes.

use vstd::prelude::*;

verus! {

/// The coordinate axis a face is perpendicular to.
#[derive(Clone, Copy, Debug, PartialEq, Eq, Structural)]
pub enum FaceAxis {
    FaceX,
    FaceY,
    FaceZ,
}

impl FaceAxis {
    /// Index (0 = x, 1 = y, 2 = z) of the coordinate fixed by the face's plane.
    pub open spec fn spec_normal_axis(self) -> nat {
        match self {
            FaceAxis::FaceX => 0,
            FaceAxis::FaceY => 1,
            FaceAxis::FaceZ => 2,
        }
    }

    /// Indices of the coordinates bounded by the face's window: first the
    /// one checked against `w1..=w2`, then the one checked against `h1..=h2`.
    pub open spec fn spec_window_axes(self) -> (nat, nat) {
        match self {
            FaceAxis::FaceX => (1, 2),
            FaceAxis::FaceY => (2, 0),
            FaceAxis::FaceZ => (0, 1),
        }
    }

    pub fn normal_axis(&self) -> (r: usize)
        ensures
            r == self.spec_normal_axis(),
            r < 3,
    {
        match self {
            FaceAxis::FaceX => 0,
            FaceAxis::FaceY => 1,
            FaceAxis::FaceZ => 2,
        }
    }

    pub fn window_axes(&self) -> (r: (usize, usize))
        ensures
            r.0 == self.spec_window_axes().0,
            r.1 == self.spec_window_axes().1,
    {
        match self {
            FaceAxis::FaceX => (1, 2),
            FaceAxis::FaceY => (2, 0),
            FaceAxis::FaceZ => (0, 1),
        }
    }
}

/// The plane's axis and the two window axes are the three coordinates, each
/// exactly once.
pub proof fn lemma_face_axes_partition(a: FaceAxis)
    ensures
        a.spec_normal_axis() < 3,
        a.spec_window_axes().0 < 3,
        a.spec_window_axes().1 < 3,
        a.spec_normal_axis() != a.spec_window_axes().0,
        a.spec_normal_axis() != a.spec_window_axes().1,
        a.spec_window_axes().0 != a.spec_window_axes().1,
{
}

} // verus!
