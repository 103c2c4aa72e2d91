//! Tests of the Grood-and-Suntay solver: the tibiofemoral fixture on both
//! sides, the patellofemoral pairing, the degenerate pose pair, and
//! undefined propagation into the solver.

use jcs::bone_to_tracker::knee::{FemoralFrame, PatellarFrame, TibialFrame};
use jcs::bone_to_tracker::{Global, Side};
use jcs::solvers::{GroodAndSuntay, Motion};
use jcs::transform::{IsFrameOfReference, Transform};
use jcs::vec3::Vec3;

const S: f64 = 1048576.0;

fn s(v: f64) -> i128 {
    (v * S).round() as i128
}

fn close(a: i128, expected: f64, tol: f64) -> bool {
    let d: i128 = a - s(expected);
    let d: i128 = if d < 0 { -d } else { d };
    d <= s(tol)
}

fn mk<B: IsFrameOfReference>(m: [[f64; 3]; 3], t: [f64; 3]) -> Transform<Global, B> {
    Transform::new(
        Vec3::new(s(m[0][0]), s(m[1][0]), s(m[2][0])),
        Vec3::new(s(m[0][1]), s(m[1][1]), s(m[2][1])),
        Vec3::new(s(m[0][2]), s(m[1][2]), s(m[2][2])),
        Vec3::new(s(t[0]), s(t[1]), s(t[2])),
    )
}

const FEMUR_ROT: [[f64; 3]; 3] = [
    [0.038036615, 0.3550867, -0.93405956],
    [-0.86295205, -0.45963743, -0.2098743],
    [-0.5038522, 0.81403124, 0.28893963],
];

const FEMUR_T: [f64; 3] = [23.877735, -20.129425, -2075.4763];

const TIBIA_ROT: [[f64; 3]; 3] = [
    [-0.0122986585, -0.12232429, -0.99241406],
    [-0.808449, -0.5828457, 0.08186005],
    [-0.5884379, 0.8033229, -0.091724634],
];

const TIBIA_T: [f64; 3] = [57.99079, -24.560608, -2064.4182];

fn check_motion(m: Motion, flexion_sin: f64, external_sin: f64, varus_sin: f64, anterior: f64, lateral: f64, distal: f64) {
    let tol_sin = 1.0e-3;
    let tol_len = 5.0e-2;
    assert!(close(m.flexion_sin, flexion_sin, tol_sin));
    assert!(close(m.external_sin, external_sin, tol_sin));
    assert!(close(m.varus_sin, varus_sin, tol_sin));
    assert!(close(m.anterior, anterior, tol_len));
    assert!(close(m.lateral, lateral, tol_len));
    assert!(close(m.distal, distal, tol_len));
}

#[test]
fn tibiofemoral_gns() {
    let g_t_f: Transform<Global, FemoralFrame> = mk(FEMUR_ROT, FEMUR_T);
    let g_t_t: Transform<Global, TibialFrame> = mk(TIBIA_ROT, TIBIA_T);
    let motion = GroodAndSuntay::tibiofemoral().solve(g_t_f, g_t_t, Side::Left).unwrap();
    check_motion(motion, -0.465586, -0.093741, -0.062174, 7.574438, 0.450204, 35.231312);
}

#[test]
fn tibiofemoral_gns_right_side() {
    // The same pose pair decomposed with the right-side conventions: the
    // external rotation and lateral offset change sign, the rest is shared.
    let g_t_f: Transform<Global, FemoralFrame> = mk(FEMUR_ROT, FEMUR_T);
    let g_t_t: Transform<Global, TibialFrame> = mk(TIBIA_ROT, TIBIA_T);
    let motion = GroodAndSuntay::tibiofemoral().solve(g_t_f, g_t_t, Side::Right).unwrap();
    check_motion(motion, -0.465586, 0.093741, -0.062174, 7.574438, -0.450204, 35.231312);
}

#[test]
fn patellofemoral_gns() {
    let g_t_f: Transform<Global, FemoralFrame> = mk(FEMUR_ROT, FEMUR_T);
    let g_t_p: Transform<Global, PatellarFrame> = mk(TIBIA_ROT, TIBIA_T);
    let motion = GroodAndSuntay::patellofemoral().solve(g_t_f, g_t_p, Side::Left).unwrap();
    check_motion(motion, -0.465586, -0.093741, -0.062174, 7.574438, 0.450204, 35.231312);
}

#[test]
fn parallel_axes_are_degenerate() {
    // Both bones aligned with the laboratory axes: the tibial long axis and
    // the femoral flexion axis are parallel, so the floating axis is
    // undefined. The long axis of the "tibia" here points along the femoral
    // first axis.
    let id = [[1.0, 0.0, 0.0], [0.0, 1.0, 0.0], [0.0, 0.0, 1.0]];
    let swapped = [[0.0, 0.0, 1.0], [0.0, 1.0, 0.0], [-1.0, 0.0, 0.0]];
    let g_t_f: Transform<Global, FemoralFrame> = mk(id, [0.0, 0.0, 0.0]);
    let g_t_t: Transform<Global, TibialFrame> = mk(swapped, [0.0, 10.0, 0.0]);
    assert!(GroodAndSuntay::tibiofemoral().solve(g_t_f, g_t_t, Side::Right).is_none());
}

#[test]
fn undefined_pose_propagates() {
    let g_t_f: Transform<Global, FemoralFrame> = mk(FEMUR_ROT, FEMUR_T);
    let g_t_t: Transform<Global, TibialFrame> = mk(TIBIA_ROT, TIBIA_T);
    let solver = GroodAndSuntay::tibiofemoral();
    assert!(solver.solve_defined(None, Some(g_t_t), Side::Left).is_none());
    let g_t_f2: Transform<Global, FemoralFrame> = mk(FEMUR_ROT, FEMUR_T);
    assert!(solver.solve_defined(Some(g_t_f2), None, Side::Left).is_none());
    let g_t_t2: Transform<Global, TibialFrame> = mk(TIBIA_ROT, TIBIA_T);
    assert!(solver.solve_defined(Some(g_t_f), Some(g_t_t2), Side::Left).is_some());
}
