//! A calibration landmark: one probe reading tagged with the bone it belongs
//! to and the anatomical role it plays.

use vstd::prelude::*;

use core::marker::PhantomData;
use crate::bone_to_tracker::orientation::Orientation;
use crate::data::probe_data::ProbeData;
use crate::quat::Quat;
use crate::transform::IsFrameOfReference;
use crate::vec3::Vec3;

verus! {

/// An immutable landmark record for bone `RB` in role `O`: the probe's
/// provenance strings and the position and orientation it captured. Created
/// once during calibration; never mutated.
#[verifier::reject_recursive_types(RB)]
#[verifier::reject_recursive_types(O)]
pub struct Landmark<RB: IsFrameOfReference, O: Orientation> {
    pub probe_name: String,
    pub probe_label: String,
    pub position: ProbeData,
    pub bone: PhantomData<RB>,
    pub orientation: PhantomData<O>,
}

impl<RB: IsFrameOfReference, O: Orientation> Landmark<RB, O> {
    /// Validity: the captured reading is valid.
    pub open spec fn wf(self) -> bool {
        self.position.wf()
    }

    /// Record one landmark from a validated probe reading.
    pub fn new(probe_name: &str, probe_label: &str, position: ProbeData) -> (r: Landmark<RB, O>)
        requires
            position.wf(),
        ensures
            r.position == position,
            r.probe_name@ == probe_name@,
            r.probe_label@ == probe_label@,
            r.wf(),
    {
        Landmark {
            probe_name: probe_name.to_string(),
            probe_label: probe_label.to_string(),
            position,
            bone: PhantomData,
            orientation: PhantomData,
        }
    }

    /// The probe's name, as reported by the capture system.
    pub fn probe_name(&self) -> (r: &str)
        ensures
            r@ == self.probe_name@,
    {
        self.probe_name.as_str()
    }

    /// The probe's configured label.
    pub fn probe_label(&self) -> (r: &str)
        ensures
            r@ == self.probe_label@,
    {
        self.probe_label.as_str()
    }

    /// The captured position.
    pub fn translations(&self) -> (r: Vec3)
        ensures
            r@ == self.position.translation@,
    {
        self.position.translation()
    }

    /// The captured orientation.
    pub fn rotations(&self) -> (r: Quat)
        ensures
            r@ == self.position.rotation@,
    {
        self.position.rotation()
    }
}

} // verus!
