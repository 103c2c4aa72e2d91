//! The tibiofemoral and patellofemoral joint: the three bone identities,
//! their anatomical frame constructions, and the Grood-and-Suntay solver.

use vstd::prelude::*;

pub mod rigid_body;
pub mod solve;

use crate::data::datum::Datum;
use crate::{Bone, RigidBody, Tracker};

verus! {

/// The tibia's rigid-body identity.
pub type Tibia = RigidBody<1>;

/// The femur's rigid-body identity.
pub type Femur = RigidBody<2>;

/// The patella's rigid-body identity.
pub type Patella = RigidBody<3>;

/// The tibia's frame identity.
pub type TibialFrame = Bone<1>;

/// The femur's frame identity.
pub type FemoralFrame = Bone<2>;

/// The patella's frame identity.
pub type PatellarFrame = Bone<3>;

/// One captured sample of the tibial tracker.
pub type DataTibia = Datum<Tracker<TibialFrame>>;

/// One captured sample of the femoral tracker.
pub type DataFemur = Datum<Tracker<FemoralFrame>>;

/// One captured sample of the patellar tracker.
pub type DataPatella = Datum<Tracker<PatellarFrame>>;

} // verus!
