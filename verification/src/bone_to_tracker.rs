//! Anatomy-facing layer: frame tags for the laboratory and the bones,
//! anatomical landmark records, and the capability of a fully calibrated
//! bone to produce its anatomical frame.

use vstd::prelude::*;

pub mod knee;
pub mod landmark;
pub mod orientation;

pub use knee::{Femur, Patella, Tibia};
pub use landmark::Landmark;
pub use orientation::{Anterior, Lateral, Medial, Orientation, Posterior, ProximalDistal};

use crate::transform::{IsFrameOfReference, Transform, T4};

verus! {

/// The fixed laboratory ("world") frame every tracker pose is measured in.
pub struct Global;

impl IsFrameOfReference for Global {

}

/// Which side of the body a bone belongs to; the anatomical frame and the
/// joint decomposition flip certain axis signs between sides.
#[derive(Clone, Copy, PartialEq, Eq, Structural, Debug)]
pub enum Side {
    Right,
    Left,
}

/// A bone whose anatomical ("fixed") frame can be derived: the capability a
/// fully calibrated rigid body offers. The frame is expressed in [`Global`];
/// a configuration whose landmarks are geometrically degenerate has no frame,
/// and the operations report that absence rather than guessing.
pub trait DefinedTracker where Self: Sized {
    /// The frame identity of the bone-fixed coordinate system.
    type Body: IsFrameOfReference;

    /// The model of the derived frame: `None` exactly for a degenerate
    /// landmark configuration.
    spec fn fixed_frame_model(&self) -> Option<T4>;

    /// Derive the anatomical frame from the calibration landmarks.
    fn fixed_frame(&self) -> (r: Option<Transform<Global, Self::Body>>)
        ensures
            r is Some <==> self.fixed_frame_model() is Some,
            r matches Some(t) ==> self.fixed_frame_model() == Some(t@) && t.wf(),
    ;

    /// The bone's pose in the global frame at calibration time; for the
    /// anatomical frame construction this is the frame itself.
    fn in_global(&self) -> (r: Option<Transform<Global, Self::Body>>)
        ensures
            r is Some <==> self.fixed_frame_model() is Some,
            r matches Some(t) ==> self.fixed_frame_model() == Some(t@) && t.wf(),
    ;
}

} // verus!
