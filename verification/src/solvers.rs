//! Joint solvers: the Grood-and-Suntay decomposition implemented for the
//! knee, and the identifiers of the solver family.

use vstd::prelude::*;

use crate::bone_to_tracker::Side;
use crate::transform::{gT, IsFrameOfReference};

verus! {

/// The Grood-and-Suntay joint-coordinate-system solver family; see
/// [`crate::bone_to_tracker::knee::solve::GroodAndSuntayKnee`] for the knee
/// instances.
pub struct GroodAndSuntay {}

/// The symmetrical-axis-of-rotation-analysis solver. Not supported: no
/// implementation is provided, deliberately, rather than a partial one.
pub struct SARA {}

/// The helical-axis solver. Not supported: no implementation is provided,
/// deliberately, rather than a partial one.
pub struct Helical {}

/// The model of a [`Motion`]: six unbounded integers.
pub ghost struct M6 {
    pub flexion_sin: int,
    pub external_sin: int,
    pub varus_sin: int,
    pub anterior: int,
    pub lateral: int,
    pub distal: int,
}

/// Six degrees of freedom of one bone relative to another at one instant.
///
/// The three rotational components are reported as sines at scale
/// [`crate::num::SCALE`] — `flexion_sin` is `sin(flexion)`, `external_sin`
/// is `sin(external rotation)`, and `varus_sin` is `sin(varus)`, which
/// equals `cos(beta)` for the Grood-and-Suntay angle `beta`; the
/// transcendental step to angles in degrees is left to the caller. The three
/// translations are fixed-point lengths in the capture units.
#[derive(Clone, Copy, PartialEq, Eq, Structural, Debug)]
pub struct Motion {
    pub flexion_sin: i128,
    pub external_sin: i128,
    pub varus_sin: i128,
    pub anterior: i128,
    pub lateral: i128,
    pub distal: i128,
}

impl View for Motion {
    type V = M6;

    open spec fn view(&self) -> M6 {
        M6 {
            flexion_sin: self.flexion_sin as int,
            external_sin: self.external_sin as int,
            varus_sin: self.varus_sin as int,
            anterior: self.anterior as int,
            lateral: self.lateral as int,
            distal: self.distal as int,
        }
    }
}

/// A joint solver: two bones' poses in the global frame and a side flag in,
/// six degrees of freedom out. `None` reports a geometrically degenerate
/// pose pair, never a zeroed result. The two spec members pin each instance
/// exactly: a motion comes back precisely when [`Solver::solvable`] says so,
/// and then its model is [`Solver::motion_model`].
pub trait Solver {
    type F: IsFrameOfReference;

    type T: IsFrameOfReference;

    /// Whether this solver yields a motion for the pose pair.
    spec fn solvable(&self, rb1: &gT<Self::F>, rb2: &gT<Self::T>) -> bool;

    /// The model of the motion, when one is yielded.
    spec fn motion_model(&self, rb1: &gT<Self::F>, rb2: &gT<Self::T>, side: Side) -> M6;

    fn solve(&self, rb1: gT<Self::F>, rb2: gT<Self::T>, side: Side) -> (r: Option<Motion>)
        ensures
            r is Some <==> self.solvable(&rb1, &rb2),
            r matches Some(m) ==> m@ == self.motion_model(&rb1, &rb2, side),
    ;
}

} // verus!
