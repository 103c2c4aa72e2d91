//! The frame-tagged rigid-transform algebra.
//!
//! A [`Transform<T, V>`] maps coordinates expressed in frame `V` to
//! coordinates expressed in frame `T`. The frame parameters are zero-sized
//! tags carried through every operation, so that transforms over unrelated
//! frames cannot be composed by accident; the algebra itself never inspects
//! them. The rotation block is expected to be orthonormal to rounding
//! tolerance — constructors in this crate build it that way — and the
//! left-division operator relies on that rigidity when it inverts by
//! transposition.

use vstd::prelude::*;

use core::marker::PhantomData;
use crate::num::{lemma_mul_abs_le, lemma_rdiv_le, lemma_rdiv_mul_exact, rdiv, rdiv_i, SCALE};
use crate::vec3::{v3_add, v3_dot, v3_in_bounds, v3_scale, v3_sub, V3, Vec3};

verus! {

/// A zero-sized tag naming one coordinate system. Two frames are the same
/// frame exactly when they are the same type.
pub trait IsFrameOfReference {

}

/// Bound on the fixed-point rotation-block entries a well-formed transform
/// may hold: four times the scale, leaving room for the rounding of a few
/// chained compositions on top of the unit-length columns of a rigid
/// rotation.
pub const ROT_LIM: i128 = 4 * SCALE;

/// Bound on the fixed-point translation entries of a well-formed transform.
pub const TRANS_LIM: i128 = 0x4000000000000;

/// Bound on the entries handed back by one rotation application to a vector
/// within twice [`TRANS_LIM`].
pub const APPLY_LIM: i128 = 6 * ROT_LIM * 0x40000000;

/// The model of a transform: the three rotation columns and the origin.
pub ghost struct T4 {
    pub i: V3,
    pub j: V3,
    pub k: V3,
    pub o: V3,
}

/// An immutable rigid transform from frame `V` to frame `T`: a rotation whose
/// columns are the axes of `V` expressed in `T`, and the position of `V`'s
/// origin expressed in `T`. Coordinates are fixed-point at [`SCALE`].
#[derive(Debug)]
#[verifier::reject_recursive_types(T)]
#[verifier::reject_recursive_types(V)]
pub struct Transform<T, V> where T: IsFrameOfReference, V: IsFrameOfReference {
    pub basis_i: Vec3,
    pub basis_j: Vec3,
    pub basis_k: Vec3,
    pub trans: Vec3,
    pub _from: PhantomData<T>,
    pub _to: PhantomData<V>,
}

impl<T, V> View for Transform<T, V> where T: IsFrameOfReference, V: IsFrameOfReference {
    type V = T4;

    open spec fn view(&self) -> T4 {
        T4 { i: self.basis_i@, j: self.basis_j@, k: self.basis_k@, o: self.trans@ }
    }
}

/// Well-formedness of a transform's model: every entry within its bound.
pub open spec fn t4_wf(t: T4) -> bool {
    &&& v3_in_bounds(t.i, ROT_LIM as int)
    &&& v3_in_bounds(t.j, ROT_LIM as int)
    &&& v3_in_bounds(t.k, ROT_LIM as int)
    &&& v3_in_bounds(t.o, TRANS_LIM as int)
}

/// The rotation block applied to a vector, each entry divided by [`SCALE`]
/// with rounding to nearest.
pub open spec fn rot_apply(a: T4, v: V3) -> V3 {
    V3 {
        x: rdiv(a.i.x * v.x + a.j.x * v.y + a.k.x * v.z, SCALE as int),
        y: rdiv(a.i.y * v.x + a.j.y * v.y + a.k.y * v.z, SCALE as int),
        z: rdiv(a.i.z * v.x + a.j.z * v.y + a.k.z * v.z, SCALE as int),
    }
}

/// The transposed rotation block applied to a vector, rounded like
/// [`rot_apply`]. For a rigid rotation the transpose is the inverse.
pub open spec fn rot_tapply(a: T4, v: V3) -> V3 {
    V3 {
        x: rdiv(v3_dot(a.i, v), SCALE as int),
        y: rdiv(v3_dot(a.j, v), SCALE as int),
        z: rdiv(v3_dot(a.k, v), SCALE as int),
    }
}

/// [`rot_apply`] without the division: the plain integer matrix product,
/// carrying the extra factor of [`SCALE`].
pub open spec fn rot_apply_exact(a: T4, v: V3) -> V3 {
    V3 {
        x: a.i.x * v.x + a.j.x * v.y + a.k.x * v.z,
        y: a.i.y * v.x + a.j.y * v.y + a.k.y * v.z,
        z: a.i.z * v.x + a.j.z * v.y + a.k.z * v.z,
    }
}

/// [`rot_tapply`] without the division.
pub open spec fn rot_tapply_exact(a: T4, v: V3) -> V3 {
    V3 { x: v3_dot(a.i, v), y: v3_dot(a.j, v), z: v3_dot(a.k, v) }
}

/// Composition of transforms: the rotation blocks multiplied and the origin
/// carried through, every entry rounded once.
pub open spec fn compose_spec(a: T4, b: T4) -> T4 {
    T4 {
        i: rot_apply(a, b.i),
        j: rot_apply(a, b.j),
        k: rot_apply(a, b.k),
        o: v3_add(rot_apply(a, b.o), a.o),
    }
}

/// Left division of `a` into `b`, both sharing their source frame: the
/// inverse of `a` — its transpose, by rigidity — composed with `b`.
pub open spec fn relative_spec(a: T4, b: T4) -> T4 {
    T4 {
        i: rot_tapply(a, b.i),
        j: rot_tapply(a, b.j),
        k: rot_tapply(a, b.k),
        o: rot_tapply(a, v3_sub(b.o, a.o)),
    }
}

/// The identity transform's model.
pub open spec fn identity_spec() -> T4 {
    T4 {
        i: V3 { x: SCALE as int, y: 0, z: 0 },
        j: V3 { x: 0, y: SCALE as int, z: 0 },
        k: V3 { x: 0, y: 0, z: SCALE as int },
        o: V3 { x: 0, y: 0, z: 0 },
    }
}

/// The rows of the rotation block, as vectors.
pub open spec fn row_x(t: T4) -> V3 {
    V3 { x: t.i.x, y: t.j.x, z: t.k.x }
}

pub open spec fn row_y(t: T4) -> V3 {
    V3 { x: t.i.y, y: t.j.y, z: t.k.y }
}

pub open spec fn row_z(t: T4) -> V3 {
    V3 { x: t.i.z, y: t.j.z, z: t.k.z }
}

/// Exact orthonormality of the rotation rows at scale [`SCALE`]: the
/// fixed-point statement that the rotation block times its transpose is the
/// identity. This is the idealized rigidity hypothesis under which left
/// division is a true inverse.
pub open spec fn rows_orthonormal(t: T4) -> bool {
    &&& v3_dot(row_x(t), row_x(t)) == SCALE as int * SCALE as int
    &&& v3_dot(row_y(t), row_y(t)) == SCALE as int * SCALE as int
    &&& v3_dot(row_z(t), row_z(t)) == SCALE as int * SCALE as int
    &&& v3_dot(row_x(t), row_y(t)) == 0
    &&& v3_dot(row_x(t), row_z(t)) == 0
    &&& v3_dot(row_y(t), row_z(t)) == 0
}

impl<T, V> Transform<T, V> where T: IsFrameOfReference, V: IsFrameOfReference {
    /// Well-formedness: every entry within its bound. Constructors establish
    /// it and the composition operators re-check it on their results.
    pub open spec fn wf(self) -> bool {
        t4_wf(self@)
    }

    /// A transform from its rotation columns and origin. The caller
    /// guarantees that the columns form a rotation to rounding tolerance, as
    /// with the raw-matrix constructor of any rigid-transform library; the
    /// entry bounds alone are machine limits and are checked here.
    pub fn new(basis_i: Vec3, basis_j: Vec3, basis_k: Vec3, trans: Vec3) -> (r: Transform<T, V>)
        requires
            v3_in_bounds(basis_i@, ROT_LIM as int),
            v3_in_bounds(basis_j@, ROT_LIM as int),
            v3_in_bounds(basis_k@, ROT_LIM as int),
            v3_in_bounds(trans@, TRANS_LIM as int),
        ensures
            r@ == (T4 { i: basis_i@, j: basis_j@, k: basis_k@, o: trans@ }),
            r.wf(),
    {
        Transform { basis_i, basis_j, basis_k, trans, _from: PhantomData, _to: PhantomData }
    }

    /// The identity transform.
    pub fn identity() -> (r: Transform<T, V>)
        ensures
            r@ == identity_spec(),
            r.wf(),
    {
        Transform {
            basis_i: Vec3::new(SCALE, 0, 0),
            basis_j: Vec3::new(0, SCALE, 0),
            basis_k: Vec3::new(0, 0, SCALE),
            trans: Vec3::new(0, 0, 0),
            _from: PhantomData,
            _to: PhantomData,
        }
    }

    /// First rotation column: the target frame's first axis expressed in the
    /// source frame.
    pub fn i(&self) -> (r: Vec3)
        ensures
            r@ == self@.i,
    {
        self.basis_i
    }

    /// Second rotation column.
    pub fn j(&self) -> (r: Vec3)
        ensures
            r@ == self@.j,
    {
        self.basis_j
    }

    /// Third rotation column.
    pub fn k(&self) -> (r: Vec3)
        ensures
            r@ == self@.k,
    {
        self.basis_k
    }

    /// The origin of the target frame expressed in the source frame.
    pub fn origin(&self) -> (r: Vec3)
        ensures
            r@ == self@.o,
    {
        self.trans
    }

    /// The translation column; the same data as [`Self::origin`].
    pub fn translation(&self) -> (r: Vec3)
        ensures
            r@ == self@.o,
    {
        self.trans
    }

    /// Runtime check of [`Self::wf`].
    pub fn is_wf(&self) -> (r: bool)
        ensures
            r == self.wf(),
    {
        let rl: i128 = ROT_LIM;
        let tl: i128 = TRANS_LIM;
        -rl <= self.basis_i.x && self.basis_i.x <= rl && -rl <= self.basis_i.y && self.basis_i.y
            <= rl && -rl <= self.basis_i.z && self.basis_i.z <= rl && -rl <= self.basis_j.x
            && self.basis_j.x <= rl && -rl <= self.basis_j.y && self.basis_j.y <= rl && -rl
            <= self.basis_j.z && self.basis_j.z <= rl && -rl <= self.basis_k.x && self.basis_k.x
            <= rl && -rl <= self.basis_k.y && self.basis_k.y <= rl && -rl <= self.basis_k.z
            && self.basis_k.z <= rl && -tl <= self.trans.x && self.trans.x <= tl && -tl
            <= self.trans.y && self.trans.y <= tl && -tl <= self.trans.z && self.trans.z <= tl
    }

    /// The rotation block applied to one vector, rounded.
    fn rot_apply_e(&self, v: &Vec3) -> (r: Vec3)
        requires
            self.wf(),
            v3_in_bounds(v@, 2 * TRANS_LIM as int),
        ensures
            r@ == rot_apply(self@, v@),
            v3_in_bounds(r@, APPLY_LIM as int),
    {
        proof {
            lemma_mul_abs_le(self@.i.x, v@.x, ROT_LIM as int, 2 * TRANS_LIM as int);
            lemma_mul_abs_le(self@.j.x, v@.y, ROT_LIM as int, 2 * TRANS_LIM as int);
            lemma_mul_abs_le(self@.k.x, v@.z, ROT_LIM as int, 2 * TRANS_LIM as int);
            lemma_mul_abs_le(self@.i.y, v@.x, ROT_LIM as int, 2 * TRANS_LIM as int);
            lemma_mul_abs_le(self@.j.y, v@.y, ROT_LIM as int, 2 * TRANS_LIM as int);
            lemma_mul_abs_le(self@.k.y, v@.z, ROT_LIM as int, 2 * TRANS_LIM as int);
            lemma_mul_abs_le(self@.i.z, v@.x, ROT_LIM as int, 2 * TRANS_LIM as int);
            lemma_mul_abs_le(self@.j.z, v@.y, ROT_LIM as int, 2 * TRANS_LIM as int);
            lemma_mul_abs_le(self@.k.z, v@.z, ROT_LIM as int, 2 * TRANS_LIM as int);
            lemma_rdiv_le(
                self@.i.x * v@.x + self@.j.x * v@.y + self@.k.x * v@.z,
                SCALE as int,
                APPLY_LIM as int,
            );
            lemma_rdiv_le(
                self@.i.y * v@.x + self@.j.y * v@.y + self@.k.y * v@.z,
                SCALE as int,
                APPLY_LIM as int,
            );
            lemma_rdiv_le(
                self@.i.z * v@.x + self@.j.z * v@.y + self@.k.z * v@.z,
                SCALE as int,
                APPLY_LIM as int,
            );
        }
        Vec3 {
            x: rdiv_i(self.basis_i.x * v.x + self.basis_j.x * v.y + self.basis_k.x * v.z, SCALE),
            y: rdiv_i(self.basis_i.y * v.x + self.basis_j.y * v.y + self.basis_k.y * v.z, SCALE),
            z: rdiv_i(self.basis_i.z * v.x + self.basis_j.z * v.y + self.basis_k.z * v.z, SCALE),
        }
    }

    /// The transposed rotation block applied to one vector, rounded.
    fn rot_tapply_e(&self, v: &Vec3) -> (r: Vec3)
        requires
            self.wf(),
            v3_in_bounds(v@, 2 * TRANS_LIM as int),
        ensures
            r@ == rot_tapply(self@, v@),
            v3_in_bounds(r@, APPLY_LIM as int),
    {
        proof {
            crate::vec3::lemma_dot_bounds(self@.i, v@, ROT_LIM as int, 2 * TRANS_LIM as int);
            crate::vec3::lemma_dot_bounds(self@.j, v@, ROT_LIM as int, 2 * TRANS_LIM as int);
            crate::vec3::lemma_dot_bounds(self@.k, v@, ROT_LIM as int, 2 * TRANS_LIM as int);
            lemma_rdiv_le(v3_dot(self@.i, v@), SCALE as int, APPLY_LIM as int);
            lemma_rdiv_le(v3_dot(self@.j, v@), SCALE as int, APPLY_LIM as int);
            lemma_rdiv_le(v3_dot(self@.k, v@), SCALE as int, APPLY_LIM as int);
        }
        Vec3 {
            x: rdiv_i(self.basis_i.dot(v), SCALE),
            y: rdiv_i(self.basis_j.dot(v), SCALE),
            z: rdiv_i(self.basis_k.dot(v), SCALE),
        }
    }

    /// Composition with a transform whose target frame is this transform's
    /// source frame: the standard matrix product, associative and not
    /// commutative. Returns `None` exactly when an entry of the result would
    /// leave the well-formedness bounds, which cannot happen for the
    /// near-orthonormal data this crate builds.
    pub fn compose<B: IsFrameOfReference>(&self, rhs: &Transform<V, B>) -> (r: Option<
        Transform<T, B>,
    >)
        requires
            self.wf(),
            rhs.wf(),
        ensures
            match r {
                Some(t) => t@ == compose_spec(self@, rhs@) && t.wf(),
                None => !t4_wf(compose_spec(self@, rhs@)),
            },
    {
        let ci = self.rot_apply_e(&rhs.basis_i);
        let cj = self.rot_apply_e(&rhs.basis_j);
        let ck = self.rot_apply_e(&rhs.basis_k);
        let co = self.rot_apply_e(&rhs.trans).add_v(&self.trans);
        Self::checked::<B>(ci, cj, ck, co)
    }

    /// Left division ("mldivide"): for two transforms sharing their source
    /// frame, the transform between their target frames, `self⁻¹ ∘ rhs`. The
    /// inverse is taken by transposing the rotation block, the direct rigid
    /// inverse; it is exact precisely when the block is orthonormal, which
    /// well-formed calibration data satisfies to rounding tolerance. Returns
    /// `None` exactly when an entry of the result would leave the
    /// well-formedness bounds.
    pub fn relative<B: IsFrameOfReference>(&self, rhs: &Transform<T, B>) -> (r: Option<
        Transform<V, B>,
    >)
        requires
            self.wf(),
            rhs.wf(),
        ensures
            match r {
                Some(t) => t@ == relative_spec(self@, rhs@) && t.wf(),
                None => !t4_wf(relative_spec(self@, rhs@)),
            },
    {
        let ci = self.rot_tapply_e(&rhs.basis_i);
        let cj = self.rot_tapply_e(&rhs.basis_j);
        let ck = self.rot_tapply_e(&rhs.basis_k);
        let diff = rhs.trans.sub_v(&self.trans);
        let co = self.rot_tapply_e(&diff);
        Transform::<V, T>::checked::<B>(ci, cj, ck, co)
    }

    /// Bounds-check four candidate columns and assemble the transform.
    fn checked<B: IsFrameOfReference>(ci: Vec3, cj: Vec3, ck: Vec3, co: Vec3) -> (r: Option<
        Transform<T, B>,
    >)
        ensures
            match r {
                Some(t) => t@ == (T4 { i: ci@, j: cj@, k: ck@, o: co@ }) && t.wf(),
                None => !t4_wf(T4 { i: ci@, j: cj@, k: ck@, o: co@ }),
            },
    {
        let rl: i128 = ROT_LIM;
        let tl: i128 = TRANS_LIM;
        let rot_ok: bool = -rl <= ci.x && ci.x <= rl && -rl <= ci.y && ci.y <= rl && -rl <= ci.z
            && ci.z <= rl && -rl <= cj.x && cj.x <= rl && -rl <= cj.y && cj.y <= rl && -rl <= cj.z
            && cj.z <= rl && -rl <= ck.x && ck.x <= rl && -rl <= ck.y && ck.y <= rl && -rl <= ck.z
            && ck.z <= rl;
        let trans_ok: bool = -tl <= co.x && co.x <= tl && -tl <= co.y && co.y <= tl && -tl <= co.z
            && co.z <= tl;
        if rot_ok && trans_ok {
            Some(
                Transform {
                    basis_i: ci,
                    basis_j: cj,
                    basis_k: ck,
                    trans: co,
                    _from: PhantomData,
                    _to: PhantomData,
                },
            )
        } else {
            None
        }
    }
}

/// A pose in the global frame: a transform from frame `X` to
/// [`crate::bone_to_tracker::Global`].
#[allow(non_camel_case_types)]
pub type gT<X> = Transform<crate::bone_to_tracker::Global, X>;

/// A pose of rigid body `X` relative to its own tracker.
#[allow(non_camel_case_types)]
pub type tT<X> = Transform<crate::Tracker<X>, X>;

/// Left division as a named operator, for callers that prefer the
/// matrix-algebra spelling. `a.mldivide(&b)` solves `a * x = b`. The two
/// spec members pin the operator exactly: the quotient exists precisely when
/// [`Mldivide::mldivide_defined`] says so, and then its model is
/// [`Mldivide::mldivide_model`].
pub trait Mldivide<Rhs> {
    type Output: View<V = T4>;

    /// Whether left division is defined for this operand pair.
    spec fn mldivide_defined(&self, rhs: &Rhs) -> bool;

    /// The model of the quotient, when it is defined.
    spec fn mldivide_model(&self, rhs: &Rhs) -> T4;

    /// Solve `self * x = rhs` for `x`.
    fn mldivide(&self, rhs: &Rhs) -> (r: Option<Self::Output>)
        ensures
            r is Some <==> self.mldivide_defined(rhs),
            r matches Some(t) ==> t@ == self.mldivide_model(rhs),
    ;
}

impl<G, F, T2> Mldivide<Transform<G, T2>> for Transform<G, F> where
    G: IsFrameOfReference,
    F: IsFrameOfReference,
    T2: IsFrameOfReference,
 {
    type Output = Transform<F, T2>;

    /// Defined when both operands are well formed and every entry of the
    /// quotient is within the well-formedness bounds.
    open spec fn mldivide_defined(&self, rhs: &Transform<G, T2>) -> bool {
        self.wf() && rhs.wf() && t4_wf(relative_spec(self@, rhs@))
    }

    /// The quotient is the left division of `self` into `rhs`: the rigid
    /// inverse — the transpose — applied to `rhs`'s columns and to the
    /// difference of origins.
    open spec fn mldivide_model(&self, rhs: &Transform<G, T2>) -> T4 {
        relative_spec(self@, rhs@)
    }

    /// [`Transform::relative`] behind a bounds check, so that it is total.
    fn mldivide(&self, rhs: &Transform<G, T2>) -> Option<Transform<F, T2>> {
        if self.is_wf() && rhs.is_wf() {
            self.relative(rhs)
        } else {
            None
        }
    }
}

/// The identity transform is neutral for composition, exactly: composing any
/// transform with the identity on either side reproduces it entry for entry,
/// rounding included.
pub proof fn lemma_identity_compose(t: T4)
    ensures
        compose_spec(t, identity_spec()) == t,
        compose_spec(identity_spec(), t) == t,
{
    let id = identity_spec();
    let s = SCALE as int;
    lemma_rdiv_mul_exact(t.i.x, s);
    lemma_rdiv_mul_exact(t.i.y, s);
    lemma_rdiv_mul_exact(t.i.z, s);
    lemma_rdiv_mul_exact(t.j.x, s);
    lemma_rdiv_mul_exact(t.j.y, s);
    lemma_rdiv_mul_exact(t.j.z, s);
    lemma_rdiv_mul_exact(t.k.x, s);
    lemma_rdiv_mul_exact(t.k.y, s);
    lemma_rdiv_mul_exact(t.k.z, s);
    lemma_rdiv_mul_exact(t.o.x, s);
    lemma_rdiv_mul_exact(t.o.y, s);
    lemma_rdiv_mul_exact(t.o.z, s);
    lemma_rdiv_mul_exact(0, s);
    assert forall|a: int| #[trigger] (a * s) == s * a by {
        vstd::arithmetic::mul::lemma_mul_is_commutative(a, s);
    }
    assert(compose_spec(t, id).i == t.i);
    assert(compose_spec(t, id).j == t.j);
    assert(compose_spec(t, id).k == t.k);
    assert(compose_spec(t, id).o == t.o);
    assert(compose_spec(id, t).i == t.i);
    assert(compose_spec(id, t).j == t.j);
    assert(compose_spec(id, t).k == t.k);
    assert(compose_spec(id, t).o == t.o);
}

/// Composition is associative, in exact arithmetic: applying `b` and then
/// `a` to any vector is one application of the entrywise matrix product of
/// `a` and `b`. The rounded [`compose_spec`] therefore differs from any
/// re-association only by its rounding. Composition is not commutative.
pub proof fn lemma_compose_exact_assoc(a: T4, b: T4, v: V3)
    ensures
        rot_apply_exact(a, rot_apply_exact(b, v)) == rot_apply_exact(
            T4 {
                i: rot_apply_exact(a, b.i),
                j: rot_apply_exact(a, b.j),
                k: rot_apply_exact(a, b.k),
                o: a.o,
            },
            v,
        ),
{
    lemma_assoc_component(a.i.x, a.j.x, a.k.x, b, v);
    lemma_assoc_component(a.i.y, a.j.y, a.k.y, b, v);
    lemma_assoc_component(a.i.z, a.j.z, a.k.z, b, v);
}

/// One coordinate of the associativity identity, for the row `(p, q, r)` of
/// the outer rotation block.
proof fn lemma_assoc_component(p: int, q: int, r: int, b: T4, v: V3)
    ensures
        p * (b.i.x * v.x + b.j.x * v.y + b.k.x * v.z) + q * (b.i.y * v.x + b.j.y * v.y + b.k.y
            * v.z) + r * (b.i.z * v.x + b.j.z * v.y + b.k.z * v.z) == (p * b.i.x + q * b.i.y + r
            * b.i.z) * v.x + (p * b.j.x + q * b.j.y + r * b.j.z) * v.y + (p * b.k.x + q * b.k.y + r
            * b.k.z) * v.z,
{
    lemma_distribute3(p, b.i.x, b.j.x, b.k.x, v.x, v.y, v.z);
    lemma_distribute3(q, b.i.y, b.j.y, b.k.y, v.x, v.y, v.z);
    lemma_distribute3(r, b.i.z, b.j.z, b.k.z, v.x, v.y, v.z);
    lemma_factor3(p * b.i.x, q * b.i.y, r * b.i.z, v.x);
    lemma_factor3(p * b.j.x, q * b.j.y, r * b.j.z, v.y);
    lemma_factor3(p * b.k.x, q * b.k.y, r * b.k.z, v.z);
}

/// The transposed rotation block is a true left inverse of the rotation
/// block, in exact arithmetic, whenever the rows are orthonormal: applying
/// the block after its transpose scales any vector by `SCALE²`.
pub proof fn lemma_rot_transpose_inverse(a: T4, v: V3)
    requires
        rows_orthonormal(a),
    ensures
        rot_apply_exact(a, rot_tapply_exact(a, v)) == v3_scale(SCALE as int * SCALE as int, v),
{
    broadcast use vstd::arithmetic::mul::lemma_mul_is_commutative;

    let w = rot_tapply_exact(a, v);
    let s2 = SCALE as int * SCALE as int;
    lemma_transpose_component(a.i.x, a.j.x, a.k.x, a, v);
    lemma_transpose_component(a.i.y, a.j.y, a.k.y, a, v);
    lemma_transpose_component(a.i.z, a.j.z, a.k.z, a, v);
    assert(a.i.x * a.i.x + a.j.x * a.j.x + a.k.x * a.k.x == s2);
    assert(a.i.y * a.i.y + a.j.y * a.j.y + a.k.y * a.k.y == s2);
    assert(a.i.z * a.i.z + a.j.z * a.j.z + a.k.z * a.k.z == s2);
    assert(a.i.x * a.i.y + a.j.x * a.j.y + a.k.x * a.k.y == 0);
    assert(a.i.x * a.i.z + a.j.x * a.j.z + a.k.x * a.k.z == 0);
    assert(a.i.y * a.i.z + a.j.y * a.j.z + a.k.y * a.k.z == 0);
    assert(rot_apply_exact(a, w).x == a.i.x * w.x + a.j.x * w.y + a.k.x * w.z);
    assert(rot_apply_exact(a, w).x == s2 * v.x + 0 * v.y + 0 * v.z);
    assert(rot_apply_exact(a, w).y == 0 * v.x + s2 * v.y + 0 * v.z);
    assert(rot_apply_exact(a, w).z == 0 * v.x + 0 * v.y + s2 * v.z);
    assert(0 * v.x == 0 && 0 * v.y == 0 && 0 * v.z == 0);
}

/// One coordinate of the transpose-inverse identity: for the row `(p, q, r)`
/// of the rotation block, the corresponding coordinate of
/// `R (Rᵀ v)` equals the dot products of that row with the three rows,
/// contracted against `v`.
proof fn lemma_transpose_component(p: int, q: int, r: int, a: T4, v: V3)
    ensures
        p * v3_dot(a.i, v) + q * v3_dot(a.j, v) + r * v3_dot(a.k, v) == (p * a.i.x + q * a.j.x + r
            * a.k.x) * v.x + (p * a.i.y + q * a.j.y + r * a.k.y) * v.y + (p * a.i.z + q * a.j.z + r
            * a.k.z) * v.z,
{
    lemma_distribute3(p, a.i.x, a.i.y, a.i.z, v.x, v.y, v.z);
    lemma_distribute3(q, a.j.x, a.j.y, a.j.z, v.x, v.y, v.z);
    lemma_distribute3(r, a.k.x, a.k.y, a.k.z, v.x, v.y, v.z);
    lemma_factor3(p * a.i.x, q * a.j.x, r * a.k.x, v.x);
    lemma_factor3(p * a.i.y, q * a.j.y, r * a.k.y, v.y);
    lemma_factor3(p * a.i.z, q * a.j.z, r * a.k.z, v.z);
}

/// A scalar distributed over a three-term linear combination.
proof fn lemma_distribute3(p: int, b1: int, b2: int, b3: int, v1: int, v2: int, v3a: int)
    ensures
        p * (b1 * v1 + b2 * v2 + b3 * v3a) == (p * b1) * v1 + (p * b2) * v2 + (p * b3) * v3a,
{
    vstd::arithmetic::mul::lemma_mul_is_distributive_add(p, b1 * v1 + b2 * v2, b3 * v3a);
    vstd::arithmetic::mul::lemma_mul_is_distributive_add(p, b1 * v1, b2 * v2);
    vstd::arithmetic::mul::lemma_mul_is_associative(p, b1, v1);
    vstd::arithmetic::mul::lemma_mul_is_associative(p, b2, v2);
    vstd::arithmetic::mul::lemma_mul_is_associative(p, b3, v3a);
}

/// A three-term coefficient factored out of a common multiplicand.
proof fn lemma_factor3(c1: int, c2: int, c3: int, v1: int)
    ensures
        (c1 + c2 + c3) * v1 == c1 * v1 + c2 * v1 + c3 * v1,
{
    vstd::arithmetic::mul::lemma_mul_is_distributive_add_other_way(v1, c1 + c2, c3);
    vstd::arithmetic::mul::lemma_mul_is_distributive_add_other_way(v1, c1, c2);
}

/// The left-division inverse law, in exact arithmetic: for two poses `a` and
/// `b` sharing their source frame, with `a`'s rotation rigid, composing `a`
/// with `a \ b` reproduces `b` — each rotation column and the origin come
/// back scaled by the `SCALE²` that the two unrounded multiplications carry.
pub proof fn lemma_left_division_inverse(a: T4, b: T4)
    requires
        rows_orthonormal(a),
    ensures
        rot_apply_exact(a, rot_tapply_exact(a, b.i)) == v3_scale(SCALE as int * SCALE as int, b.i),
        rot_apply_exact(a, rot_tapply_exact(a, b.j)) == v3_scale(SCALE as int * SCALE as int, b.j),
        rot_apply_exact(a, rot_tapply_exact(a, b.k)) == v3_scale(SCALE as int * SCALE as int, b.k),
        v3_add(
            rot_apply_exact(a, rot_tapply_exact(a, v3_sub(b.o, a.o))),
            v3_scale(SCALE as int * SCALE as int, a.o),
        ) == v3_scale(SCALE as int * SCALE as int, b.o),
{
    lemma_rot_transpose_inverse(a, b.i);
    lemma_rot_transpose_inverse(a, b.j);
    lemma_rot_transpose_inverse(a, b.k);
    lemma_rot_transpose_inverse(a, v3_sub(b.o, a.o));
    let s2 = SCALE as int * SCALE as int;
    assert(v3_add(v3_scale(s2, v3_sub(b.o, a.o)), v3_scale(s2, a.o)) == v3_scale(s2, b.o))
        by (nonlinear_arith);
}

} // verus!
