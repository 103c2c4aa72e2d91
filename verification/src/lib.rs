//! Frame-tagged rigid-transform algebra and joint-motion decomposition for
//! optical motion-capture data.
//!
//! Motion trackers are rigidly attached to bones; calibration probes record
//! anatomical landmarks relative to each tracker; a joint-coordinate-system
//! decomposition converts the relative pose between two bones into clinically
//! interpretable angles and offsets.
//!
//! All geometry is carried out over fixed-point coordinates: a scalar is an
//! `i128` holding the real value times [`num::SCALE`]. Every operation has an
//! exact integer contract, so rounding is pinned down to the last unit.
//! Conversion between fixed-point scalars and whatever floating-point form a
//! capture system delivers is the caller's concern, as is the transcendental
//! step from the sines reported in a [`solvers::Motion`] to angles in
//! degrees.

use vstd::prelude::*;

pub mod bone_to_tracker;
pub mod data;
pub mod num;
pub mod quat;
pub mod solvers;
pub mod transform;
pub mod vec3;

use core::marker::PhantomData;
use crate::bone_to_tracker::{Global, Landmark, Lateral, Medial, ProximalDistal, Side};
use crate::data::probe_data::{probe_transform_spec, ProbeData};
use crate::transform::{IsFrameOfReference, Transform};

verus! {

/// A rigid body: something a tracker can be fixed to.
pub trait IsRigidBody {

}

/// A marker whose pose the capture system reports each frame.
pub trait Marker {

}

/// The hand-held calibration probe.
pub struct Probe;

impl Marker for Probe {

}

/// The rigid marker cluster attached to rigid body `RB`; a frame of its own,
/// measured directly by the capture system.
#[verifier::reject_recursive_types(RB)]
pub struct Tracker<RB: IsFrameOfReference>(pub PhantomData<RB>);

impl<RB: IsFrameOfReference> Marker for Tracker<RB> {

}

impl<RB: IsFrameOfReference> IsFrameOfReference for Tracker<RB> {

}

/// The anatomical frame identity of bone `ID`: a zero-sized tag for the
/// bone-fixed coordinate system that the frame builder derives.
pub struct Bone<const ID: usize>;

impl<const ID: usize> IsFrameOfReference for Bone<ID> {

}

/// Why a rigid body could not be finalized: the first calibration field
/// still missing, in construction order.
#[derive(Clone, Copy, PartialEq, Eq, Structural, Debug)]
pub enum CalibrationError {
    MissingSide,
    MissingMedial,
    MissingLateral,
    MissingFarLandmark,
    MissingTracker,
}

/// A fully calibrated rigid body, one per bone identity `ID`: its side, the
/// medial/lateral landmark pair, the far landmark along the long axis, and
/// the tracker's pose in [`Global`] at the moment the landmarks were
/// digitized. Immutable once constructed; build one incrementally with
/// [`RigidBodyBuilder`] when calibration data arrives piecemeal.
#[verifier::reject_recursive_types(ID)]
pub struct RigidBody<const ID: usize> {
    pub side: Side,
    pub medial: Landmark<Bone<ID>, Medial>,
    pub lateral: Landmark<Bone<ID>, Lateral>,
    pub far_landmark: Landmark<Bone<ID>, ProximalDistal>,
    pub tracker: Transform<Global, Tracker<Bone<ID>>>,
}

impl<const ID: usize> IsRigidBody for RigidBody<ID> {

}

impl<const ID: usize> RigidBody<ID> {
    /// Validity: every landmark reading is valid and the calibration tracker
    /// pose is well formed.
    pub open spec fn wf(self) -> bool {
        &&& self.medial.wf()
        &&& self.lateral.wf()
        &&& self.far_landmark.wf()
        &&& self.tracker.wf()
    }

    /// Assemble a rigid body from its side, three landmark readings and the
    /// calibration-time tracker reading.
    pub fn new(
        side: Side,
        medial: ProbeData,
        lateral: ProbeData,
        far_landmark: ProbeData,
        tracker: ProbeData,
    ) -> (r: RigidBody<ID>)
        requires
            medial.wf(),
            lateral.wf(),
            far_landmark.wf(),
            tracker.wf(),
        ensures
            r.side == side,
            r.medial.position == medial,
            r.lateral.position == lateral,
            r.far_landmark.position == far_landmark,
            r.medial.probe_name@ == "Black Probe"@ && r.medial.probe_label@ == "Probe"@,
            r.lateral.probe_name@ == "Black Probe"@ && r.lateral.probe_label@ == "Probe"@,
            r.far_landmark.probe_name@ == "Black Probe"@ && r.far_landmark.probe_label@
                == "Probe"@,
            r.tracker@ == probe_transform_spec(tracker.rotation@, tracker.translation@),
            r.wf(),
    {
        let med = Landmark::<Bone<ID>, Medial>::new("Black Probe", "Probe", medial);
        let lat = Landmark::<Bone<ID>, Lateral>::new("Black Probe", "Probe", lateral);
        let far = Landmark::<Bone<ID>, ProximalDistal>::new(
            "Black Probe",
            "Probe",
            far_landmark,
        );
        let track = Self::tracker_in_global(tracker);
        RigidBody { side, medial: med, lateral: lat, far_landmark: far, tracker: track }
    }

    /// The tracker's pose in the global frame that one reading records.
    pub fn tracker_in_global(probe_data: ProbeData) -> (r: Transform<Global, Tracker<Bone<ID>>>)
        requires
            probe_data.wf(),
        ensures
            r@ == probe_transform_spec(probe_data.rotation@, probe_data.translation@),
            r.wf(),
    {
        probe_data.to_transform::<Global, Tracker<Bone<ID>>>()
    }
}

/// Staged construction of a [`RigidBody`]: calibration data arrives
/// incrementally, and completeness is checked once, at
/// [`RigidBodyBuilder::finalize`]. Derived computations accept only the
/// finalized type.
pub struct RigidBodyBuilder<const ID: usize> {
    pub side: Option<Side>,
    pub medial: Option<ProbeData>,
    pub lateral: Option<ProbeData>,
    pub far_landmark: Option<ProbeData>,
    pub tracker: Option<ProbeData>,
}

impl<const ID: usize> RigidBodyBuilder<ID> {
    /// Validity: whatever has been supplied so far is valid.
    pub open spec fn wf(self) -> bool {
        &&& self.medial matches Some(p) ==> p.wf()
        &&& self.lateral matches Some(p) ==> p.wf()
        &&& self.far_landmark matches Some(p) ==> p.wf()
        &&& self.tracker matches Some(p) ==> p.wf()
    }

    /// An empty builder: nothing supplied yet.
    pub fn new() -> (r: RigidBodyBuilder<ID>)
        ensures
            r.side is None && r.medial is None && r.lateral is None && r.far_landmark is None
                && r.tracker is None,
            r.wf(),
    {
        RigidBodyBuilder {
            side: None,
            medial: None,
            lateral: None,
            far_landmark: None,
            tracker: None,
        }
    }

    /// Record the bone's side.
    pub fn with_side(self, side: Side) -> (r: RigidBodyBuilder<ID>)
        requires
            self.wf(),
        ensures
            r == (RigidBodyBuilder { side: Some(side), ..self }),
            r.wf(),
    {
        RigidBodyBuilder { side: Some(side), ..self }
    }

    /// Record the medial landmark reading.
    pub fn with_medial(self, p: ProbeData) -> (r: RigidBodyBuilder<ID>)
        requires
            self.wf(),
            p.wf(),
        ensures
            r == (RigidBodyBuilder { medial: Some(p), ..self }),
            r.wf(),
    {
        RigidBodyBuilder { medial: Some(p), ..self }
    }

    /// Record the lateral landmark reading.
    pub fn with_lateral(self, p: ProbeData) -> (r: RigidBodyBuilder<ID>)
        requires
            self.wf(),
            p.wf(),
        ensures
            r == (RigidBodyBuilder { lateral: Some(p), ..self }),
            r.wf(),
    {
        RigidBodyBuilder { lateral: Some(p), ..self }
    }

    /// Record the far landmark reading.
    pub fn with_far_landmark(self, p: ProbeData) -> (r: RigidBodyBuilder<ID>)
        requires
            self.wf(),
            p.wf(),
        ensures
            r == (RigidBodyBuilder { far_landmark: Some(p), ..self }),
            r.wf(),
    {
        RigidBodyBuilder { far_landmark: Some(p), ..self }
    }

    /// Record the calibration-time tracker reading.
    pub fn with_tracker(self, p: ProbeData) -> (r: RigidBodyBuilder<ID>)
        requires
            self.wf(),
            p.wf(),
        ensures
            r == (RigidBodyBuilder { tracker: Some(p), ..self }),
            r.wf(),
    {
        RigidBodyBuilder { tracker: Some(p), ..self }
    }

    /// Check completeness and produce the immutable rigid body, or report
    /// the first field still missing — in the order side, medial, lateral,
    /// far landmark, tracker — as an explicit error, never a default.
    pub fn finalize(self) -> (r: Result<RigidBody<ID>, CalibrationError>)
        requires
            self.wf(),
        ensures
            r is Ok <==> (self.side is Some && self.medial is Some && self.lateral is Some
                && self.far_landmark is Some && self.tracker is Some),
            r matches Ok(b) ==> {
                &&& b.side == self.side->Some_0
                &&& b.medial.position == self.medial->Some_0
                &&& b.lateral.position == self.lateral->Some_0
                &&& b.far_landmark.position == self.far_landmark->Some_0
                &&& b.tracker@ == probe_transform_spec(
                    self.tracker->Some_0.rotation@,
                    self.tracker->Some_0.translation@,
                )
                &&& b.wf()
            },
            r matches Err(e) ==> e == (if self.side is None {
                CalibrationError::MissingSide
            } else if self.medial is None {
                CalibrationError::MissingMedial
            } else if self.lateral is None {
                CalibrationError::MissingLateral
            } else if self.far_landmark is None {
                CalibrationError::MissingFarLandmark
            } else {
                CalibrationError::MissingTracker
            }),
    {
        match self {
            RigidBodyBuilder {
                side: Some(side),
                medial: Some(medial),
                lateral: Some(lateral),
                far_landmark: Some(far_landmark),
                tracker: Some(tracker),
            } => Ok(RigidBody::new(side, medial, lateral, far_landmark, tracker)),
            RigidBodyBuilder { side: None, .. } => Err(CalibrationError::MissingSide),
            RigidBodyBuilder { medial: None, .. } => Err(CalibrationError::MissingMedial),
            RigidBodyBuilder { lateral: None, .. } => Err(CalibrationError::MissingLateral),
            RigidBodyBuilder { far_landmark: None, .. } => Err(
                CalibrationError::MissingFarLandmark,
            ),
            RigidBodyBuilder { tracker: None, .. } => Err(CalibrationError::MissingTracker),
        }
    }
}

} // verus!
