//! Anatomical ("fixed") frame construction for the three knee bones, and the
//! per-frame pose resolution of a calibrated rigid body.
//!
//! The construction is the same for every bone: the origin is the midpoint
//! of the medial/lateral pair; a provisional long axis points along the bone
//! shaft; the first axis runs between the medial and lateral landmarks with
//! a sign that depends on bone and side; the remaining axes are
//! re-orthogonalized cross products. The femur's side signs are the mirror
//! of the tibia's and patella's — an empirical convention inherited from the
//! reference computation this construction reproduces, to be preserved, not
//! re-derived.

use vstd::prelude::*;

use super::{FemoralFrame, Femur, Patella, PatellarFrame, Tibia, TibialFrame};
use crate::bone_to_tracker::{DefinedTracker, Global, Side};
use crate::data::datum::Datum;
use crate::data::probe_data::probe_transform_spec;
use crate::num::{lemma_rdiv_le, SCALE};
use crate::transform::{
    compose_spec, gT, relative_spec, t4_wf, tT, IsFrameOfReference, Transform, T4, TRANS_LIM,
};
use crate::vec3::{
    lemma_cross_bounds, lemma_cross_neg, lemma_cross_orthogonal, lemma_normalize_neg,
    lemma_v3_norm2_pos, v3_cross, v3_dot, v3_in_bounds, v3_midpoint, v3_neg, v3_norm2,
    v3_normalize, v3_sub, v3_zero, V3, Vec3,
};
use crate::{Bone, RigidBody, Tracker};

verus! {

/// The frame a landmark configuration determines: first axis the normalized
/// `i_raw`, second the normalized cross product of the normalized
/// longitudinal hint with the first, third the re-orthogonalized cross
/// product of the first two, origin as given.
pub open spec fn frame_spec(origin: V3, hint_raw: V3, i_raw: V3) -> T4 {
    let ti = v3_normalize(i_raw);
    let hint = v3_normalize(hint_raw);
    let tj = v3_normalize(v3_cross(hint, ti));
    let tk = v3_normalize(v3_cross(ti, tj));
    T4 { i: ti, j: tj, k: tk, o: origin }
}

/// Whether a landmark configuration determines a frame: every vector fed to
/// a normalization must be nonzero. Coincident landmarks, or a hint parallel
/// to the first axis, leave the frame undefined.
pub open spec fn frame_defined(hint_raw: V3, i_raw: V3) -> bool {
    let ti = v3_normalize(i_raw);
    let hint = v3_normalize(hint_raw);
    let tj = v3_normalize(v3_cross(hint, ti));
    &&& i_raw != v3_zero()
    &&& hint_raw != v3_zero()
    &&& v3_cross(hint, ti) != v3_zero()
    &&& v3_cross(ti, tj) != v3_zero()
}

/// The medial/lateral axis direction for the tibia and patella: on the right
/// side it runs from the medial to the lateral landmark, on the left side
/// the reverse.
pub open spec fn tibia_i_raw(med: V3, lat: V3, side: Side) -> V3 {
    if side == Side::Right {
        v3_sub(lat, med)
    } else {
        v3_sub(med, lat)
    }
}

/// The medial/lateral axis direction for the femur: the signs are inverted
/// relative to the tibia, matching the external reference computation.
pub open spec fn femur_i_raw(med: V3, lat: V3, side: Side) -> V3 {
    if side == Side::Right {
        v3_sub(med, lat)
    } else {
        v3_sub(lat, med)
    }
}

/// The tibia's frame: longitudinal hint from the distal landmark up to the
/// origin.
pub open spec fn tibia_frame_spec(med: V3, lat: V3, dist: V3, side: Side) -> T4 {
    frame_spec(
        v3_midpoint(med, lat),
        v3_sub(v3_midpoint(med, lat), dist),
        tibia_i_raw(med, lat, side),
    )
}

pub open spec fn tibia_frame_defined(med: V3, lat: V3, dist: V3, side: Side) -> bool {
    frame_defined(v3_sub(v3_midpoint(med, lat), dist), tibia_i_raw(med, lat, side))
}

/// The femur's frame: longitudinal hint from the origin up to the proximal
/// landmark.
pub open spec fn femur_frame_spec(med: V3, lat: V3, prox: V3, side: Side) -> T4 {
    frame_spec(
        v3_midpoint(med, lat),
        v3_sub(prox, v3_midpoint(med, lat)),
        femur_i_raw(med, lat, side),
    )
}

pub open spec fn femur_frame_defined(med: V3, lat: V3, prox: V3, side: Side) -> bool {
    frame_defined(v3_sub(prox, v3_midpoint(med, lat)), femur_i_raw(med, lat, side))
}

/// The patella's frame: constructed exactly like the tibia's.
pub open spec fn patella_frame_spec(med: V3, lat: V3, dist: V3, side: Side) -> T4 {
    tibia_frame_spec(med, lat, dist, side)
}

pub open spec fn patella_frame_defined(med: V3, lat: V3, dist: V3, side: Side) -> bool {
    tibia_frame_defined(med, lat, dist, side)
}

/// Assemble the frame a landmark configuration determines, or report an
/// undefined one. `None` exactly when [`frame_defined`] fails.
fn build_frame<B: IsFrameOfReference>(origin: Vec3, hint_raw: Vec3, i_raw: Vec3) -> (r: Option<
    Transform<Global, B>,
>)
    requires
        v3_in_bounds(origin@, TRANS_LIM as int),
        v3_in_bounds(hint_raw@, 2 * TRANS_LIM as int),
        v3_in_bounds(i_raw@, 2 * TRANS_LIM as int),
    ensures
        r is Some <==> frame_defined(hint_raw@, i_raw@),
        r matches Some(t) ==> t@ == frame_spec(origin@, hint_raw@, i_raw@) && t.wf(),
{
    let ti = match i_raw.normalize() {
        Some(v) => v,
        None => {
            return None;
        },
    };
    let hint = match hint_raw.normalize() {
        Some(v) => v,
        None => {
            return None;
        },
    };
    let j_raw = hint.cross(&ti);
    proof {
        lemma_cross_bounds(hint@, ti@, SCALE as int, SCALE as int);
    }
    let tj = match j_raw.normalize() {
        Some(v) => v,
        None => {
            return None;
        },
    };
    let k_raw = ti.cross(&tj);
    proof {
        lemma_cross_bounds(ti@, tj@, SCALE as int, SCALE as int);
    }
    let tk = match k_raw.normalize() {
        Some(v) => v,
        None => {
            return None;
        },
    };
    Some(Transform::<Global, B>::new(ti, tj, tk, origin))
}

/// The midpoint of two in-bounds points is in bounds.
proof fn lemma_midpoint_in_bounds(a: V3, b: V3)
    requires
        v3_in_bounds(a, TRANS_LIM as int),
        v3_in_bounds(b, TRANS_LIM as int),
    ensures
        v3_in_bounds(v3_midpoint(a, b), TRANS_LIM as int),
{
    lemma_rdiv_le(a.x + b.x, 2, TRANS_LIM as int);
    lemma_rdiv_le(a.y + b.y, 2, TRANS_LIM as int);
    lemma_rdiv_le(a.z + b.z, 2, TRANS_LIM as int);
}

impl DefinedTracker for Tibia {
    type Body = TibialFrame;

    /// Defined exactly when the calibration data is valid and the landmarks
    /// are nondegenerate; then it is the tibial frame of the stored
    /// landmarks.
    open spec fn fixed_frame_model(&self) -> Option<T4> {
        let med = self.medial.position.translation@;
        let lat = self.lateral.position.translation@;
        let dist = self.far_landmark.position.translation@;
        if self.wf() && tibia_frame_defined(med, lat, dist, self.side) {
            Some(tibia_frame_spec(med, lat, dist, self.side))
        } else {
            None
        }
    }

    fn fixed_frame(&self) -> Option<Transform<Global, <Self as DefinedTracker>::Body>> {
        if !(self.medial.position.is_wf() && self.lateral.position.is_wf()
            && self.far_landmark.position.is_wf() && self.tracker.is_wf()) {
            return None;
        }
        let med = self.medial.translations();
        let lat = self.lateral.translations();
        let dist = self.far_landmark.translations();
        proof {
            lemma_midpoint_in_bounds(med@, lat@);
        }
        let origin = med.midpoint(&lat);
        let hint = origin.sub_v(&dist);
        let i_raw = match self.side {
            Side::Right => lat.sub_v(&med),
            Side::Left => med.sub_v(&lat),
        };
        build_frame::<<Self as DefinedTracker>::Body>(origin, hint, i_raw)
    }

    fn in_global(&self) -> Option<Transform<Global, <Self as DefinedTracker>::Body>> {
        self.fixed_frame()
    }
}

impl DefinedTracker for Femur {
    type Body = FemoralFrame;

    /// Defined exactly when the calibration data is valid and the landmarks
    /// are nondegenerate; then it is the femoral frame of the stored
    /// landmarks, with the femur's inverted side signs.
    open spec fn fixed_frame_model(&self) -> Option<T4> {
        let med = self.medial.position.translation@;
        let lat = self.lateral.position.translation@;
        let prox = self.far_landmark.position.translation@;
        if self.wf() && femur_frame_defined(med, lat, prox, self.side) {
            Some(femur_frame_spec(med, lat, prox, self.side))
        } else {
            None
        }
    }

    fn fixed_frame(&self) -> Option<Transform<Global, <Self as DefinedTracker>::Body>> {
        if !(self.medial.position.is_wf() && self.lateral.position.is_wf()
            && self.far_landmark.position.is_wf() && self.tracker.is_wf()) {
            return None;
        }
        let med = self.medial.translations();
        let lat = self.lateral.translations();
        let prox = self.far_landmark.translations();
        proof {
            lemma_midpoint_in_bounds(med@, lat@);
        }
        let origin = med.midpoint(&lat);
        let hint = prox.sub_v(&origin);
        let i_raw = match self.side {
            Side::Right => med.sub_v(&lat),
            Side::Left => lat.sub_v(&med),
        };
        build_frame::<<Self as DefinedTracker>::Body>(origin, hint, i_raw)
    }

    fn in_global(&self) -> Option<Transform<Global, <Self as DefinedTracker>::Body>> {
        self.fixed_frame()
    }
}

impl DefinedTracker for Patella {
    type Body = PatellarFrame;

    /// Defined exactly when the calibration data is valid and the landmarks
    /// are nondegenerate; then it is the patellar frame of the stored
    /// landmarks, constructed exactly like the tibia's.
    open spec fn fixed_frame_model(&self) -> Option<T4> {
        let med = self.medial.position.translation@;
        let lat = self.lateral.position.translation@;
        let dist = self.far_landmark.position.translation@;
        if self.wf() && patella_frame_defined(med, lat, dist, self.side) {
            Some(patella_frame_spec(med, lat, dist, self.side))
        } else {
            None
        }
    }

    fn fixed_frame(&self) -> Option<Transform<Global, <Self as DefinedTracker>::Body>> {
        if !(self.medial.position.is_wf() && self.lateral.position.is_wf()
            && self.far_landmark.position.is_wf() && self.tracker.is_wf()) {
            return None;
        }
        let med = self.medial.translations();
        let lat = self.lateral.translations();
        let dist = self.far_landmark.translations();
        proof {
            lemma_midpoint_in_bounds(med@, lat@);
        }
        let origin = med.midpoint(&lat);
        let hint = origin.sub_v(&dist);
        let i_raw = match self.side {
            Side::Right => lat.sub_v(&med),
            Side::Left => med.sub_v(&lat),
        };
        build_frame::<<Self as DefinedTracker>::Body>(origin, hint, i_raw)
    }

    fn in_global(&self) -> Option<Transform<Global, <Self as DefinedTracker>::Body>> {
        self.fixed_frame()
    }
}

impl<const ID: usize> RigidBody<ID> where RigidBody<ID>: DefinedTracker<Body = Bone<ID>> {
    /// The bone's static pose relative to its own tracker: the calibration
    /// tracker pose left-divided into the anatomical frame. `None` exactly
    /// when the frame is undefined or a result entry would leave the
    /// well-formedness bounds.
    pub fn in_tracker(&self) -> (r: Option<tT<Bone<ID>>>)
        ensures
            r is Some <==> (self.tracker.wf() && self.fixed_frame_model() is Some && t4_wf(
                relative_spec(self.tracker@, self.fixed_frame_model()->Some_0),
            )),
            r matches Some(t) ==> t@ == relative_spec(
                self.tracker@,
                self.fixed_frame_model()->Some_0,
            ) && t.wf(),
    {
        if !self.tracker.is_wf() {
            return None;
        }
        let ff = match self.in_global() {
            Some(f) => f,
            None => {
                return None;
            },
        };
        self.tracker.relative(&ff)
    }

    /// Resolve the bone's pose in the global frame at the instant one
    /// tracker sample was captured: the sample's tracker-in-global pose
    /// composed with the static tracker-to-bone offset. `None` propagates an
    /// invalid sample or an undefined frame, never a default pose.
    pub fn take_datum(&self, datum: Datum<Tracker<Bone<ID>>>) -> (r: Option<gT<Bone<ID>>>)
        ensures
            r is Some <==> (datum.data.wf() && self.tracker.wf() && self.fixed_frame_model()
                is Some && t4_wf(relative_spec(self.tracker@, self.fixed_frame_model()->Some_0))
                && t4_wf(
                compose_spec(
                    probe_transform_spec(datum.data.rotation@, datum.data.translation@),
                    relative_spec(self.tracker@, self.fixed_frame_model()->Some_0),
                ),
            )),
            r matches Some(t) ==> t@ == compose_spec(
                probe_transform_spec(datum.data.rotation@, datum.data.translation@),
                relative_spec(self.tracker@, self.fixed_frame_model()->Some_0),
            ) && t.wf(),
    {
        if !datum.data.is_wf() {
            return None;
        }
        let current = datum.to_transform();
        let offset = match self.in_tracker() {
            Some(t) => t,
            None => {
                return None;
            },
        };
        current.compose(&offset)
    }
}

/// The anatomical frame's axes are orthogonal before their final
/// normalizations, exactly: the raw second axis is orthogonal to both the
/// normalized first axis and the normalized hint, and the raw third axis is
/// orthogonal to the normalized first and second axes. Each published axis
/// is the rounded-to-[`SCALE`] scaling of one of these exactly-orthogonal
/// directions, so the assembled rotation block is orthonormal to rounding
/// tolerance.
pub proof fn lemma_frame_axes_orthogonal(hint_raw: V3, i_raw: V3)
    ensures
        ({
            let ti = v3_normalize(i_raw);
            let hint = v3_normalize(hint_raw);
            let j_raw = v3_cross(hint, ti);
            let tj = v3_normalize(j_raw);
            let k_raw = v3_cross(ti, tj);
            &&& v3_dot(j_raw, ti) == 0
            &&& v3_dot(j_raw, hint) == 0
            &&& v3_dot(k_raw, ti) == 0
            &&& v3_dot(k_raw, tj) == 0
        }),
{
    let ti = v3_normalize(i_raw);
    let hint = v3_normalize(hint_raw);
    let tj = v3_normalize(v3_cross(hint, ti));
    lemma_cross_orthogonal(hint, ti);
    lemma_cross_orthogonal(ti, tj);
}

/// Quantitative nondegeneracy of a landmark configuration: each vector fed
/// to a normalization is at least one unit long. Landmarks centimetres apart
/// and axes degrees away from parallel satisfy this with room to spare.
pub open spec fn frame_well_separated(hint_raw: V3, i_raw: V3) -> bool {
    let ti = v3_normalize(i_raw);
    let hint = v3_normalize(hint_raw);
    let j_raw = v3_cross(hint, ti);
    let tj = v3_normalize(j_raw);
    &&& v3_norm2(i_raw) >= SCALE as int * SCALE as int
    &&& v3_norm2(j_raw) >= SCALE as int * SCALE as int
    &&& v3_norm2(v3_cross(ti, tj)) >= SCALE as int * SCALE as int
}

/// Orthonormality of the built frame, rounding included: for a
/// well-separated landmark configuration the rotation block's columns are
/// unit length to within six parts in [`SCALE`] (squared lengths within
/// `5·SCALE + 1` of `SCALE²`) and pairwise orthogonal to within two parts in
/// [`SCALE`] (dot products at most `2·SCALE` in magnitude, against the
/// `SCALE²` of a parallel pair). A configuration close to degenerate — say
/// landmarks less than one unit apart — is excluded: there the rounding of a
/// nearly-vanishing cross product can deflect the axes arbitrarily.
pub proof fn lemma_frame_orthonormal(origin: V3, hint_raw: V3, i_raw: V3)
    requires
        frame_well_separated(hint_raw, i_raw),
    ensures
        ({
            let f = frame_spec(origin, hint_raw, i_raw);
            let s = SCALE as int;
            &&& s * s - 3 * s <= v3_norm2(f.i) <= s * s + 5 * s + 1
            &&& s * s - 3 * s <= v3_norm2(f.j) <= s * s + 5 * s + 1
            &&& s * s - 3 * s <= v3_norm2(f.k) <= s * s + 5 * s + 1
            &&& -(2 * s) <= v3_dot(f.i, f.j) <= 2 * s
            &&& -(2 * s) <= v3_dot(f.i, f.k) <= 2 * s
            &&& -(2 * s) <= v3_dot(f.j, f.k) <= 2 * s
        }),
{
    let s = SCALE as int;
    let ti = v3_normalize(i_raw);
    let hint = v3_normalize(hint_raw);
    let j_raw = v3_cross(hint, ti);
    let tj = v3_normalize(j_raw);
    let k_raw = v3_cross(ti, tj);
    assert(s * s >= 1);
    crate::vec3::lemma_normalize_unit_length(i_raw);
    crate::vec3::lemma_normalize_unit_length(j_raw);
    crate::vec3::lemma_normalize_unit_length(k_raw);
    crate::vec3::lemma_normalize_in_bounds(i_raw);
    crate::vec3::lemma_normalize_in_bounds(j_raw);
    lemma_cross_orthogonal(hint, ti);
    lemma_cross_orthogonal(ti, tj);
    assert(v3_dot(ti, j_raw) == v3_dot(j_raw, ti)) by (nonlinear_arith);
    assert(v3_dot(ti, k_raw) == v3_dot(k_raw, ti)) by (nonlinear_arith);
    assert(v3_dot(tj, k_raw) == v3_dot(k_raw, tj)) by (nonlinear_arith);
    crate::vec3::lemma_normalize_preserves_orthogonality(ti, j_raw, s);
    crate::vec3::lemma_normalize_preserves_orthogonality(ti, k_raw, s);
    crate::vec3::lemma_normalize_preserves_orthogonality(tj, k_raw, s);
}

/// Flipping the side flag of a landmark configuration negates the raw first
/// axis; this lemma shows what that does to the finished frame: the first
/// and second axes flip sign exactly, while the origin and the third axis
/// are unchanged, rounding included.
pub proof fn lemma_frame_side_flip(origin: V3, hint_raw: V3, i_raw: V3)
    requires
        i_raw != v3_zero(),
        v3_cross(v3_normalize(hint_raw), v3_normalize(i_raw)) != v3_zero(),
    ensures
        ({
            let f = frame_spec(origin, hint_raw, i_raw);
            let g = frame_spec(origin, hint_raw, v3_neg(i_raw));
            &&& g.i == v3_neg(f.i)
            &&& g.j == v3_neg(f.j)
            &&& g.k == f.k
            &&& g.o == f.o
        }),
{
    let ti = v3_normalize(i_raw);
    let hint = v3_normalize(hint_raw);
    let j_raw = v3_cross(hint, ti);
    let tj = v3_normalize(j_raw);
    lemma_v3_norm2_pos(i_raw);
    lemma_normalize_neg(i_raw);
    lemma_cross_neg(hint, ti);
    lemma_v3_norm2_pos(j_raw);
    lemma_normalize_neg(j_raw);
    lemma_cross_neg(ti, tj);
}

/// Side symmetry of the tibial frame: the left-side construction on the
/// same landmarks flips the first and second axes and preserves the origin
/// and the third axis.
pub proof fn lemma_tibia_side_symmetry(med: V3, lat: V3, dist: V3)
    requires
        v3_sub(lat, med) != v3_zero(),
        v3_cross(
            v3_normalize(v3_sub(v3_midpoint(med, lat), dist)),
            v3_normalize(v3_sub(lat, med)),
        ) != v3_zero(),
    ensures
        tibia_frame_spec(med, lat, dist, Side::Left).i == v3_neg(
            tibia_frame_spec(med, lat, dist, Side::Right).i,
        ),
        tibia_frame_spec(med, lat, dist, Side::Left).j == v3_neg(
            tibia_frame_spec(med, lat, dist, Side::Right).j,
        ),
        tibia_frame_spec(med, lat, dist, Side::Left).k == tibia_frame_spec(
            med,
            lat,
            dist,
            Side::Right,
        ).k,
        tibia_frame_spec(med, lat, dist, Side::Left).o == tibia_frame_spec(
            med,
            lat,
            dist,
            Side::Right,
        ).o,
{
    let o = v3_midpoint(med, lat);
    let hint_raw = v3_sub(o, dist);
    assert(tibia_i_raw(med, lat, Side::Left) == v3_neg(tibia_i_raw(med, lat, Side::Right)));
    lemma_frame_side_flip(o, hint_raw, v3_sub(lat, med));
}

/// Side symmetry of the femoral frame; the femur's inverted sign table
/// flips the same way.
pub proof fn lemma_femur_side_symmetry(med: V3, lat: V3, prox: V3)
    requires
        v3_sub(med, lat) != v3_zero(),
        v3_cross(
            v3_normalize(v3_sub(prox, v3_midpoint(med, lat))),
            v3_normalize(v3_sub(med, lat)),
        ) != v3_zero(),
    ensures
        femur_frame_spec(med, lat, prox, Side::Left).i == v3_neg(
            femur_frame_spec(med, lat, prox, Side::Right).i,
        ),
        femur_frame_spec(med, lat, prox, Side::Left).j == v3_neg(
            femur_frame_spec(med, lat, prox, Side::Right).j,
        ),
        femur_frame_spec(med, lat, prox, Side::Left).k == femur_frame_spec(
            med,
            lat,
            prox,
            Side::Right,
        ).k,
        femur_frame_spec(med, lat, prox, Side::Left).o == femur_frame_spec(
            med,
            lat,
            prox,
            Side::Right,
        ).o,
{
    let o = v3_midpoint(med, lat);
    let hint_raw = v3_sub(prox, o);
    assert(femur_i_raw(med, lat, Side::Left) == v3_neg(femur_i_raw(med, lat, Side::Right)));
    lemma_frame_side_flip(o, hint_raw, v3_sub(med, lat));
}

/// Side symmetry of the patellar frame, identical to the tibia's.
pub proof fn lemma_patella_side_symmetry(med: V3, lat: V3, dist: V3)
    requires
        v3_sub(lat, med) != v3_zero(),
        v3_cross(
            v3_normalize(v3_sub(v3_midpoint(med, lat), dist)),
            v3_normalize(v3_sub(lat, med)),
        ) != v3_zero(),
    ensures
        patella_frame_spec(med, lat, dist, Side::Left).i == v3_neg(
            patella_frame_spec(med, lat, dist, Side::Right).i,
        ),
        patella_frame_spec(med, lat, dist, Side::Left).k == patella_frame_spec(
            med,
            lat,
            dist,
            Side::Right,
        ).k,
{
    lemma_tibia_side_symmetry(med, lat, dist);
}

} // verus!
