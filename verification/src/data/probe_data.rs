//! A probe reading: a quaternion orientation and a translation, with the
//! provenance strings the capture system attaches. Conversion to a rigid
//! transform is exact fixed-point arithmetic with a pinned-down contract.

use vstd::prelude::*;

use crate::quat::{q4_in_bounds, q4_norm2, quat_col_i, quat_col_j, quat_col_k, quat_cols,
    lemma_q4_norm2_pos, Q4, Quat, QUAT_LIM};
use crate::transform::{IsFrameOfReference, Transform, T4, TRANS_LIM};
use crate::vec3::{v3_in_bounds, V3, Vec3};

verus! {

/// The rigid transform a probe reading stands for: rotation from the
/// quaternion, origin from the translation. The matrix convention is
/// `translation · rotation` — the rotation applies first, in the local frame.
pub open spec fn probe_transform_spec(rotation: Q4, translation: V3) -> T4 {
    T4 {
        i: quat_col_i(rotation),
        j: quat_col_j(rotation),
        k: quat_col_k(rotation),
        o: translation,
    }
}

/// A raw, unvalidated probe reading as the capture system hands it over.
#[derive(Clone, Debug)]
pub struct ProbeRawData {
    pub name: String,
    pub label: String,
    pub q0: i128,
    pub qx: i128,
    pub qy: i128,
    pub qz: i128,
    pub x: i128,
    pub y: i128,
    pub z: i128,
}

impl ProbeRawData {
    /// Bundle the components of one reading.
    pub fn new(
        name: &str,
        label: &str,
        q0: i128,
        qx: i128,
        qy: i128,
        qz: i128,
        x: i128,
        y: i128,
        z: i128,
    ) -> (r: ProbeRawData)
        ensures
            r.q0 == q0 && r.qx == qx && r.qy == qy && r.qz == qz,
            r.x == x && r.y == y && r.z == z,
            r.name@ == name@ && r.label@ == label@,
    {
        ProbeRawData { name: name.to_string(), label: label.to_string(), q0, qx, qy, qz, x, y, z }
    }
}

/// A validated probe reading: a nonzero, bounded quaternion and a bounded
/// translation, plus provenance strings that play no part in any computation.
#[derive(Clone, Debug)]
pub struct ProbeData {
    pub name: String,
    pub label: String,
    pub translation: Vec3,
    pub rotation: Quat,
}

impl ProbeData {
    /// Validity: the quaternion is bounded and nonzero — so the rotation it
    /// stands for is defined — and the translation is within the transform
    /// bound. [`ProbeData::new`] establishes it.
    pub open spec fn wf(self) -> bool {
        &&& q4_in_bounds(self.rotation@, QUAT_LIM as int)
        &&& q4_norm2(self.rotation@) > 0
        &&& v3_in_bounds(self.translation@, TRANS_LIM as int)
    }

    /// Validate one raw reading. `None` exactly for a zero quaternion, whose
    /// orientation is undefined, or for components beyond the fixed-point
    /// bounds. The quaternion is kept as read; every use divides by its
    /// squared norm, which is what normalizing on ingestion would achieve.
    pub fn new(raw: &ProbeRawData) -> (r: Option<ProbeData>)
        ensures
            match r {
                Some(p) => {
                    &&& p.wf()
                    &&& p.rotation@ == (Q4 {
                        w: raw.q0 as int,
                        x: raw.qx as int,
                        y: raw.qy as int,
                        z: raw.qz as int,
                    })
                    &&& p.translation@ == (V3 { x: raw.x as int, y: raw.y as int, z: raw.z as int })
                    &&& p.name@ == raw.name@
                    &&& p.label@ == raw.label@
                },
                None => {
                    let q = Q4 {
                        w: raw.q0 as int,
                        x: raw.qx as int,
                        y: raw.qy as int,
                        z: raw.qz as int,
                    };
                    !(q4_in_bounds(q, QUAT_LIM as int) && q4_norm2(q) > 0 && v3_in_bounds(
                        V3 { x: raw.x as int, y: raw.y as int, z: raw.z as int },
                        TRANS_LIM as int,
                    ))
                },
            },
    {
        let ql: i128 = QUAT_LIM;
        let tl: i128 = TRANS_LIM;
        let q_ok: bool = -ql <= raw.q0 && raw.q0 <= ql && -ql <= raw.qx && raw.qx <= ql && -ql
            <= raw.qy && raw.qy <= ql && -ql <= raw.qz && raw.qz <= ql;
        let t_ok: bool = -tl <= raw.x && raw.x <= tl && -tl <= raw.y && raw.y <= tl && -tl <= raw.z
            && raw.z <= tl;
        let nonzero: bool = raw.q0 != 0 || raw.qx != 0 || raw.qy != 0 || raw.qz != 0;
        if q_ok && t_ok && nonzero {
            proof {
                let q = Q4 { w: raw.q0 as int, x: raw.qx as int, y: raw.qy as int, z: raw.qz as int };
                lemma_q4_norm2_pos(q);
            }
            Some(
                ProbeData {
                    name: raw.name.clone(),
                    label: raw.label.clone(),
                    translation: Vec3 { x: raw.x, y: raw.y, z: raw.z },
                    rotation: Quat { w: raw.q0, x: raw.qx, y: raw.qy, z: raw.qz },
                },
            )
        } else {
            proof {
                let q = Q4 { w: raw.q0 as int, x: raw.qx as int, y: raw.qy as int, z: raw.qz as int };
                if !nonzero {
                    assert(q4_norm2(q) == 0);
                }
            }
            None
        }
    }

    /// Runtime check of [`ProbeData::wf`].
    pub fn is_wf(&self) -> (r: bool)
        ensures
            r == self.wf(),
    {
        let ql: i128 = QUAT_LIM;
        let tl: i128 = TRANS_LIM;
        let q = &self.rotation;
        let t = &self.translation;
        let q_ok: bool = -ql <= q.w && q.w <= ql && -ql <= q.x && q.x <= ql && -ql <= q.y && q.y
            <= ql && -ql <= q.z && q.z <= ql;
        let t_ok: bool = -tl <= t.x && t.x <= tl && -tl <= t.y && t.y <= tl && -tl <= t.z && t.z
            <= tl;
        let nonzero: bool = q.w != 0 || q.x != 0 || q.y != 0 || q.z != 0;
        proof {
            if nonzero {
                lemma_q4_norm2_pos(self.rotation@);
            } else {
                assert(q4_norm2(self.rotation@) == 0);
            }
        }
        q_ok && t_ok && nonzero
    }

    /// The stored translation.
    pub fn translation(&self) -> (r: Vec3)
        ensures
            r@ == self.translation@,
    {
        self.translation
    }

    /// The stored quaternion, as read.
    pub fn rotation(&self) -> (r: Quat)
        ensures
            r@ == self.rotation@,
    {
        self.rotation
    }

    /// The rigid transform this reading stands for. The frame tags are the
    /// caller's assertion of which frames the reading relates, as with any
    /// raw capture datum.
    pub fn to_transform<A: IsFrameOfReference, B: IsFrameOfReference>(&self) -> (r: Transform<
        A,
        B,
    >)
        requires
            self.wf(),
        ensures
            r@ == probe_transform_spec(self.rotation@, self.translation@),
            r.wf(),
    {
        let (ci, cj, ck) = quat_cols(&self.rotation);
        Transform::<A, B>::new(ci, cj, ck, self.translation)
    }
}




} // verus!
