//! Anatomical roles a calibration landmark can play, as zero-sized tags.

use vstd::prelude::*;

verus! {

/// The role of a landmark on its bone.
pub trait Orientation {

}

/// The medial landmark of a medial/lateral pair.
pub struct Medial {}

/// The lateral landmark of a medial/lateral pair.
pub struct Lateral {}

/// A landmark on the anterior aspect.
pub struct Anterior {}

/// A landmark on the posterior aspect.
pub struct Posterior {}

/// The far landmark along the bone's long axis: distal for the tibia and
/// patella, proximal for the femur.
pub struct ProximalDistal {}

impl Orientation for Medial {

}

impl Orientation for Lateral {

}

impl Orientation for Anterior {

}

impl Orientation for Posterior {

}

impl Orientation for ProximalDistal {

}

} // verus!
