//! One motion-capture sample: the pose of a marker (a tracker cluster or a
//! probe) in the global frame at one instant.

use vstd::prelude::*;

use core::marker::PhantomData;
use crate::bone_to_tracker::Global;
use crate::data::probe_data::{probe_transform_spec, ProbeData};
use crate::transform::{IsFrameOfReference, Transform};
use crate::Marker;

verus! {

/// A single time-stamped reading for marker `M`: the raw probe data tagged
/// with which marker it was read from. Ephemeral — one per captured frame —
/// and immutable once constructed.
#[verifier::reject_recursive_types(M)]
pub struct Datum<M: Marker> {
    pub data: ProbeData,
    pub marker: PhantomData<M>,
}

impl<M: Marker + IsFrameOfReference> Datum<M> {
    /// Validity: the reading itself is valid.
    pub open spec fn wf(self) -> bool {
        self.data.wf()
    }

    /// Tag one validated reading as a sample for marker `M`.
    pub fn new(data: ProbeData) -> (r: Datum<M>)
        requires
            data.wf(),
        ensures
            r.data == data,
            r.wf(),
    {
        Datum { data, marker: PhantomData }
    }

    /// The pose of `M` in the global frame that this sample records.
    pub fn to_transform(&self) -> (r: Transform<Global, M>)
        requires
            self.wf(),
        ensures
            r@ == probe_transform_spec(self.data.rotation@, self.data.translation@),
            r.wf(),
    {
        self.data.to_transform::<Global, M>()
    }
}

} // verus!
