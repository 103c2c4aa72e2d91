//! The Grood-and-Suntay decomposition for the knee: two bones' global poses
//! and a side flag in, six degrees of freedom out, via the floating-axis
//! construction.

use vstd::prelude::*;

use core::marker::PhantomData;
use super::{FemoralFrame, PatellarFrame, TibialFrame};
use crate::bone_to_tracker::{Global, Side};
use crate::num::{lemma_rdiv_le, rdiv, rdiv_i, SCALE};
use crate::solvers::{GroodAndSuntay, Motion, Solver, M6};
use crate::transform::{gT, IsFrameOfReference, Transform, APPLY_LIM, ROT_LIM, T4, TRANS_LIM};
use crate::vec3::{
    lemma_cross_bounds, lemma_dot_bounds, v3_cross, v3_dot, v3_neg, v3_normalize, v3_sub, v3_zero,
};

verus! {

/// The Grood-and-Suntay output for one pose pair: the floating axis is the
/// normalized cross product of the distal bone's long axis with the proximal
/// bone's flexion axis, and every degree of freedom is a rounded, scaled dot
/// product against it or against a bone axis. The rotational components are
/// the sines of the clinical angles; `varus_sin` equals the cosine of the
/// angle between the flexion axis and the distal long axis, since varus is
/// its complement. Meaningful only when the two axes are not parallel.
pub open spec fn gns_spec(f: T4, t: T4, side: Side) -> M6 {
    let e2 = v3_normalize(v3_cross(t.k, f.i));
    let h = v3_sub(t.o, f.o);
    M6 {
        flexion_sin: rdiv(v3_dot(v3_neg(e2), f.k), SCALE as int),
        external_sin: if side == Side::Right {
            rdiv(v3_dot(v3_neg(e2), t.i), SCALE as int)
        } else {
            rdiv(v3_dot(e2, t.i), SCALE as int)
        },
        varus_sin: rdiv(v3_dot(f.i, t.k), SCALE as int),
        anterior: rdiv(v3_dot(h, e2), SCALE as int),
        lateral: if side == Side::Right {
            rdiv(v3_dot(h, f.i), SCALE as int)
        } else {
            rdiv(v3_dot(h, v3_neg(f.i)), SCALE as int)
        },
        distal: -rdiv(v3_dot(h, t.k), SCALE as int),
    }
}

/// The knee instances of the Grood-and-Suntay solver, one per bone pairing.
#[verifier::reject_recursive_types(A)]
#[verifier::reject_recursive_types(B)]
pub struct GroodAndSuntayKnee<A: IsFrameOfReference, B: IsFrameOfReference> {
    pub t: PhantomData<A>,
    pub v: PhantomData<B>,
}

impl GroodAndSuntay {
    /// The femur/tibia instance.
    pub fn tibiofemoral() -> GroodAndSuntayKnee<FemoralFrame, TibialFrame> {
        GroodAndSuntayKnee { t: PhantomData, v: PhantomData }
    }

    /// The femur/patella instance, the same floating-axis construction with
    /// the patella in the distal role.
    pub fn patellofemoral() -> GroodAndSuntayKnee<FemoralFrame, PatellarFrame> {
        GroodAndSuntayKnee { t: PhantomData, v: PhantomData }
    }
}

/// The floating-axis computation shared by the knee pairings. `None` exactly
/// when the distal long axis and the proximal flexion axis are parallel, so
/// that the floating axis is undefined.
fn gns_solve<A: IsFrameOfReference, B: IsFrameOfReference>(
    femur: &Transform<Global, A>,
    tibia: &Transform<Global, B>,
    side: Side,
) -> (r: Option<Motion>)
    requires
        femur.wf(),
        tibia.wf(),
    ensures
        r is Some <==> v3_cross(tibia@.k, femur@.i) != v3_zero(),
        r matches Some(m) ==> m@ == gns_spec(femur@, tibia@, side),
{
    let e2_raw = tibia.k().cross(&femur.i());
    proof {
        lemma_cross_bounds(tibia@.k, femur@.i, ROT_LIM as int, ROT_LIM as int);
    }
    let e2 = match e2_raw.normalize() {
        Some(v) => v,
        None => {
            return None;
        },
    };
    let neg_e2 = e2.neg_v();
    proof {
        lemma_dot_bounds(v3_neg(e2@), femur@.k, SCALE as int, ROT_LIM as int);
        lemma_dot_bounds(v3_neg(e2@), tibia@.i, SCALE as int, ROT_LIM as int);
        lemma_dot_bounds(e2@, tibia@.i, SCALE as int, ROT_LIM as int);
        lemma_dot_bounds(femur@.i, tibia@.k, ROT_LIM as int, ROT_LIM as int);
    }
    let flexion_sin = rdiv_i(neg_e2.dot(&femur.k()), SCALE);
    let external_sin = match side {
        Side::Right => rdiv_i(neg_e2.dot(&tibia.i()), SCALE),
        Side::Left => rdiv_i(e2.dot(&tibia.i()), SCALE),
    };
    let varus_sin = rdiv_i(femur.i().dot(&tibia.k()), SCALE);
    let h = tibia.origin().sub_v(&femur.origin());
    proof {
        lemma_dot_bounds(v3_sub(tibia@.o, femur@.o), femur@.i, 2 * TRANS_LIM as int, ROT_LIM as int);
        lemma_dot_bounds(
            v3_sub(tibia@.o, femur@.o),
            v3_neg(femur@.i),
            2 * TRANS_LIM as int,
            ROT_LIM as int,
        );
        lemma_dot_bounds(v3_sub(tibia@.o, femur@.o), e2@, 2 * TRANS_LIM as int, SCALE as int);
        lemma_dot_bounds(v3_sub(tibia@.o, femur@.o), tibia@.k, 2 * TRANS_LIM as int, ROT_LIM as int);
        lemma_rdiv_le(v3_dot(v3_sub(tibia@.o, femur@.o), tibia@.k), SCALE as int, APPLY_LIM as int);
    }
    let lateral = match side {
        Side::Right => rdiv_i(h.dot(&femur.i()), SCALE),
        Side::Left => rdiv_i(h.dot(&femur.i().neg_v()), SCALE),
    };
    let anterior = rdiv_i(h.dot(&e2), SCALE);
    let distal = -rdiv_i(h.dot(&tibia.k()), SCALE);
    Some(Motion { flexion_sin, external_sin, varus_sin, anterior, lateral, distal })
}

impl GroodAndSuntayKnee<FemoralFrame, TibialFrame> {
    /// Decompose a simultaneous femur/tibia pose pair. `None` exactly for
    /// the degenerate pair whose floating axis is undefined.
    pub fn solve(&self, rb1: gT<FemoralFrame>, rb2: gT<TibialFrame>, side: Side) -> (r: Option<Motion>)
        requires
            rb1.wf(),
            rb2.wf(),
        ensures
            r is Some <==> v3_cross(rb2@.k, rb1@.i) != v3_zero(),
            r matches Some(m) ==> m@ == gns_spec(rb1@, rb2@, side),
    {
        gns_solve(&rb1, &rb2, side)
    }

    /// Undefined propagation around [`Self::solve`]: an absent pose on
    /// either side yields an absent result, never a zeroed motion.
    pub fn solve_defined(&self, rb1: Option<gT<FemoralFrame>>, rb2: Option<gT<TibialFrame>>, side: Side) -> (r:
        Option<Motion>)
        requires
            rb1 matches Some(t) ==> t.wf(),
            rb2 matches Some(t) ==> t.wf(),
        ensures
            rb1 is None || rb2 is None ==> r is None,
            r is Some <==> (rb1 is Some && rb2 is Some && v3_cross(rb2->Some_0@.k, rb1->Some_0@.i)
                != v3_zero()),
            r matches Some(m) ==> m@ == gns_spec(rb1->Some_0@, rb2->Some_0@, side),
    {
        match (rb1, rb2) {
            (Some(f), Some(t)) => self.solve(f, t, side),
            _ => None,
        }
    }
}

impl GroodAndSuntayKnee<FemoralFrame, PatellarFrame> {
    /// Decompose a simultaneous femur/patella pose pair, the patella in the
    /// distal role of the same floating-axis construction.
    pub fn solve(&self, rb1: gT<FemoralFrame>, rb2: gT<PatellarFrame>, side: Side) -> (r: Option<Motion>)
        requires
            rb1.wf(),
            rb2.wf(),
        ensures
            r is Some <==> v3_cross(rb2@.k, rb1@.i) != v3_zero(),
            r matches Some(m) ==> m@ == gns_spec(rb1@, rb2@, side),
    {
        gns_solve(&rb1, &rb2, side)
    }

    /// Undefined propagation around [`Self::solve`].
    pub fn solve_defined(
        &self,
        rb1: Option<gT<FemoralFrame>>,
        rb2: Option<gT<PatellarFrame>>,
        side: Side,
    ) -> (r: Option<Motion>)
        requires
            rb1 matches Some(t) ==> t.wf(),
            rb2 matches Some(t) ==> t.wf(),
        ensures
            rb1 is None || rb2 is None ==> r is None,
            r is Some <==> (rb1 is Some && rb2 is Some && v3_cross(rb2->Some_0@.k, rb1->Some_0@.i)
                != v3_zero()),
            r matches Some(m) ==> m@ == gns_spec(rb1->Some_0@, rb2->Some_0@, side),
    {
        match (rb1, rb2) {
            (Some(f), Some(t)) => self.solve(f, t, side),
            _ => None,
        }
    }
}

impl Solver for GroodAndSuntayKnee<FemoralFrame, TibialFrame> {
    type F = FemoralFrame;

    type T = TibialFrame;

    /// Solvable when both poses are well formed and the floating axis is
    /// defined.
    open spec fn solvable(&self, rb1: &gT<FemoralFrame>, rb2: &gT<TibialFrame>) -> bool {
        rb1.wf() && rb2.wf() && v3_cross(rb2@.k, rb1@.i) != v3_zero()
    }

    open spec fn motion_model(&self, rb1: &gT<FemoralFrame>, rb2: &gT<TibialFrame>, side: Side) -> M6 {
        gns_spec(rb1@, rb2@, side)
    }

    /// The trait entry point re-checks well-formedness, so that it is total.
    fn solve(&self, rb1: gT<FemoralFrame>, rb2: gT<TibialFrame>, side: Side) -> Option<Motion> {
        if rb1.is_wf() && rb2.is_wf() {
            GroodAndSuntayKnee::<FemoralFrame, TibialFrame>::solve(self, rb1, rb2, side)
        } else {
            None
        }
    }
}

impl Solver for GroodAndSuntayKnee<FemoralFrame, PatellarFrame> {
    type F = FemoralFrame;

    type T = PatellarFrame;

    /// Solvable when both poses are well formed and the floating axis is
    /// defined.
    open spec fn solvable(&self, rb1: &gT<FemoralFrame>, rb2: &gT<PatellarFrame>) -> bool {
        rb1.wf() && rb2.wf() && v3_cross(rb2@.k, rb1@.i) != v3_zero()
    }

    open spec fn motion_model(&self, rb1: &gT<FemoralFrame>, rb2: &gT<PatellarFrame>, side: Side) -> M6 {
        gns_spec(rb1@, rb2@, side)
    }

    /// The trait entry point re-checks well-formedness, so that it is total.
    fn solve(&self, rb1: gT<FemoralFrame>, rb2: gT<PatellarFrame>, side: Side) -> Option<Motion> {
        if rb1.is_wf() && rb2.is_wf() {
            GroodAndSuntayKnee::<FemoralFrame, PatellarFrame>::solve(self, rb1, rb2, side)
        } else {
            None
        }
    }
}

} // verus!
