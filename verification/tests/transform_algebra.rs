//! Tests of the transform algebra: constructors, accessors, identity
//! composition, and the left-division round trip.

use jcs::bone_to_tracker::knee::{FemoralFrame, TibialFrame};
use jcs::bone_to_tracker::Global;
use jcs::data::probe_data::{ProbeData, ProbeRawData};
use jcs::transform::{IsFrameOfReference, Mldivide, Transform};
use jcs::vec3::Vec3;

const S: f64 = 1048576.0;

fn s(v: f64) -> i128 {
    (v * S).round() as i128
}

fn close(a: i128, expected: f64, tol: f64) -> bool {
    let d: i128 = a - s(expected);
    let d: i128 = if d < 0 { -d } else { d };
    d <= s(tol)
}

fn probe(q0: f64, qx: f64, qy: f64, qz: f64, x: f64, y: f64, z: f64) -> ProbeData {
    let raw = ProbeRawData::new("Black Probe", "Probe", s(q0), s(qx), s(qy), s(qz), s(x), s(y), s(z));
    ProbeData::new(&raw).unwrap()
}

fn mk<A: IsFrameOfReference, B: IsFrameOfReference>(m: [[f64; 3]; 3], t: [f64; 3]) -> Transform<A, B> {
    Transform::new(
        Vec3::new(s(m[0][0]), s(m[1][0]), s(m[2][0])),
        Vec3::new(s(m[0][1]), s(m[1][1]), s(m[2][1])),
        Vec3::new(s(m[0][2]), s(m[1][2]), s(m[2][2])),
        Vec3::new(s(t[0]), s(t[1]), s(t[2])),
    )
}

#[test]
fn point_from_transform() {
    let p = probe(0.9573733, -0.0372205, -0.1895465, 0.2147628, -149.371, -19.411, -2148.287);
    let t = p.to_transform::<Global, FemoralFrame>();
    let origin = t.origin();
    assert_eq!(origin.x, s(-149.371));
    assert_eq!(origin.y, s(-19.411));
    assert_eq!(origin.z, s(-2148.287));
    assert_eq!(t.translation(), origin);
}

#[test]
fn unitq_from_transform() {
    // A rotation of thirty degrees about the first axis, as a quaternion.
    let p = probe(0.9659258262890683, 0.25881904510252074, 0.0, 0.0, 0.0, 0.0, 0.0);
    let t = p.to_transform::<Global, FemoralFrame>();
    let c30 = 0.8660254037844387;
    let eps = 1.0e-2;
    assert!(close(t.i().x, 1.0, eps) && close(t.i().y, 0.0, eps) && close(t.i().z, 0.0, eps));
    assert!(close(t.j().x, 0.0, eps) && close(t.j().y, c30, eps) && close(t.j().z, 0.5, eps));
    assert!(close(t.k().x, 0.0, eps) && close(t.k().y, -0.5, eps) && close(t.k().z, c30, eps));
}

#[test]
fn identity_composition() {
    let t = probe(0.8228, 0.1357, 0.4408, -0.3318, 15.3196, -54.9971, -2097.6023)
        .to_transform::<Global, FemoralFrame>();
    let left = Transform::<Global, Global>::identity().compose(&t).unwrap();
    assert_eq!(left.i(), t.i());
    assert_eq!(left.j(), t.j());
    assert_eq!(left.k(), t.k());
    assert_eq!(left.origin(), t.origin());
    let right = t.compose(&Transform::<FemoralFrame, FemoralFrame>::identity()).unwrap();
    assert_eq!(right.i(), t.i());
    assert_eq!(right.j(), t.j());
    assert_eq!(right.k(), t.k());
    assert_eq!(right.origin(), t.origin());
}

#[test]
fn left_division_round_trip() {
    let a = probe(0.9573733, -0.0372205, -0.1895465, 0.2147628, -149.371, -19.411, -2148.287)
        .to_transform::<Global, FemoralFrame>();
    let b = probe(0.0230, -0.1878, 0.0213, 0.9817, 128.0411, 196.8627, -2024.9063)
        .to_transform::<Global, TibialFrame>();
    let rel = a.relative(&b).unwrap();
    let via_mldivide = a.mldivide(&b).unwrap();
    assert_eq!(rel.i(), via_mldivide.i());
    assert_eq!(rel.origin(), via_mldivide.origin());
    let back = a.compose(&rel).unwrap();
    let tol = 5.0e-2;
    for (got, want) in [
        (back.i(), b.i()),
        (back.j(), b.j()),
        (back.k(), b.k()),
        (back.origin(), b.origin()),
    ] {
        for (g, w) in [(got.x, want.x), (got.y, want.y), (got.z, want.z)] {
            let d: i128 = if g > w { g - w } else { w - g };
            assert!(d <= s(tol));
        }
    }
}

#[test]
fn compose_out_of_bounds_is_none() {
    let big = 4.0 * 1.0;
    let m = [[big, big, big], [big, big, big], [big, big, big]];
    let a: Transform<Global, FemoralFrame> = mk(m, [0.0, 0.0, 0.0]);
    let b: Transform<FemoralFrame, TibialFrame> = mk(m, [0.0, 0.0, 0.0]);
    assert!(a.compose(&b).is_none());
}

#[test]
fn quaternion_round_trip() {
    // A transform built from a quaternion hands the quaternion back, up to
    // input normalization and rounding.
    let p = probe(0.9573733, -0.0372205, -0.1895465, 0.2147628, -149.371, -19.411, -2148.287);
    let t = p.to_transform::<Global, FemoralFrame>();
    let q = t.rotation().unwrap();
    let tol = 2.0e-3;
    assert!(close(q.w, 0.9573733, tol));
    assert!(close(q.x, -0.0372205, tol));
    assert!(close(q.y, -0.1895465, tol));
    assert!(close(q.z, 0.2147628, tol));
}

#[test]
fn quaternion_round_trip_negative_trace() {
    // Nearly a half turn about the first axis: the extraction must take a
    // diagonal-dominant branch.
    let p = probe(0.01, 0.99995, 0.0, 0.0, 0.0, 0.0, 0.0);
    let t = p.to_transform::<Global, FemoralFrame>();
    let q = t.rotation().unwrap();
    let tol = 2.0e-3;
    assert!(close(q.w, 0.01, tol));
    assert!(close(q.x, 0.99995, tol));
    assert!(close(q.y, 0.0, tol));
    assert!(close(q.z, 0.0, tol));
}
