//! The full pose-resolution pipeline: calibrated femur and tibia, one
//! tracker sample each, bone poses in the global frame, and the relative
//! pose between the bones.

use jcs::bone_to_tracker::knee::{DataFemur, DataTibia, Femur, Tibia};
use jcs::bone_to_tracker::Side;
use jcs::data::datum::Datum;
use jcs::data::probe_data::{ProbeData, ProbeRawData};
use jcs::transform::Mldivide;

const S: f64 = 1048576.0;

fn s(v: f64) -> i128 {
    (v * S).round() as i128
}

fn close(a: i128, expected: f64, tol: f64) -> bool {
    let d: i128 = a - s(expected);
    let d: i128 = if d < 0 { -d } else { d };
    d <= s(tol)
}

fn probe(q0: f64, qx: f64, qy: f64, qz: f64, x: f64, y: f64, z: f64) -> ProbeData {
    let raw = ProbeRawData::new("Black Probe", "Probe", s(q0), s(qx), s(qy), s(qz), s(x), s(y), s(z));
    ProbeData::new(&raw).unwrap()
}

#[test]
fn stuff() {
    let side = Side::Left;
    // Femur landmarks.
    let fm = probe(0.8228, 0.1357, 0.4408, -0.3318, 15.3196, -54.9971, -2097.6023);
    let fl = probe(0.4031, 0.4746, 0.4195, -0.6603, 16.9156, 16.2064, -2059.3142);
    let fp = probe(0.4280, 0.4662, 0.4471, -0.6319, -8.5689, 15.8874, -2131.4353);
    // Tibia landmarks.
    let tm = probe(0.8156, 0.0787, 0.4628, -0.3381, 66.899, -61.4777, -2078.4102);
    let tl = probe(0.4197, 0.4198, 0.3991, -0.6987, 65.8513, -6.3346, -2031.8842);
    let td = probe(0.4268, 0.2327, 0.5690, -0.6632, 209.2022, -37.8499, -2040.4506);
    // Tracker positions at calibration time.
    let femur_tracker = probe(0.9573733, -0.0372205, -0.1895465, 0.2147628, -149.371, -19.411, -2148.287);
    let tibia_tracker = probe(0.0230, -0.1878, 0.0213, 0.9817, 128.0411, 196.8627, -2024.9063);
    // One captured sample per tracker.
    let f_data = probe(0.7169, 0.1776, 0.4286, 0.5204, -37.7920, -136.356, -1953.203);
    let t_data = probe(0.0347, -0.1902, 0.0599, 0.9793, 128.2, 205.321, -2050.397);

    let femur = Femur::new(side, fm, fl, fp, femur_tracker);
    let tibia = Tibia::new(side, tm, tl, td, tibia_tracker);

    let g_t_fi = femur.take_datum(DataFemur::new(f_data)).unwrap();
    let g_t_ti = tibia.take_datum(DataTibia::new(t_data)).unwrap();

    let tol_rot = 2.0e-3;
    let tol_t = 5.0e-2;
    let fi = g_t_fi.i();
    let fj = g_t_fi.j();
    let fk = g_t_fi.k();
    let fo = g_t_fi.origin();
    assert!(close(fi.x, -0.0380, tol_rot) && close(fi.y, 0.8630, tol_rot) && close(fi.z, 0.5039, tol_rot));
    assert!(close(fj.x, -0.3551, tol_rot) && close(fj.y, 0.4596, tol_rot) && close(fj.z, -0.8140, tol_rot));
    assert!(close(fk.x, -0.9341, tol_rot) && close(fk.y, -0.2099, tol_rot) && close(fk.z, 0.2889, tol_rot));
    assert!(close(fo.x, 23.878, tol_t) && close(fo.y, -20.129, tol_t) && close(fo.z, -2075.476, tol_t));

    let ti = g_t_ti.i();
    let to = g_t_ti.origin();
    assert!(close(ti.x, -0.0123, tol_rot) && close(ti.y, -0.8084, tol_rot) && close(ti.z, -0.5884, tol_rot));
    assert!(close(to.x, 57.991, tol_t) && close(to.y, -24.561, tol_t) && close(to.z, -2064.418, tol_t));

    println!("femur in global {:?}", fo);
    println!("tibia in global {:?}", to);

    // Tibia in the femoral frame of reference.
    let f_t_t = g_t_fi.mldivide(&g_t_ti);
    assert!(f_t_t.is_some());
}

#[test]
fn invalid_sample_propagates_undefined() {
    let femur = Femur::new(
        Side::Left,
        probe(0.8228, 0.1357, 0.4408, -0.3318, 15.3196, -54.9971, -2097.6023),
        probe(0.4031, 0.4746, 0.4195, -0.6603, 16.9156, 16.2064, -2059.3142),
        probe(0.4280, 0.4662, 0.4471, -0.6319, -8.5689, 15.8874, -2131.4353),
        probe(0.9573733, -0.0372205, -0.1895465, 0.2147628, -149.371, -19.411, -2148.287),
    );
    // A zero-quaternion sample can only be represented as raw data; a body
    // whose landmarks are degenerate must refuse to resolve any sample.
    let degenerate = Femur::new(
        Side::Left,
        probe(0.8228, 0.1357, 0.4408, -0.3318, 15.3196, -54.9971, -2097.6023),
        probe(0.8228, 0.1357, 0.4408, -0.3318, 15.3196, -54.9971, -2097.6023),
        probe(0.4280, 0.4662, 0.4471, -0.6319, -8.5689, 15.8874, -2131.4353),
        probe(0.9573733, -0.0372205, -0.1895465, 0.2147628, -149.371, -19.411, -2148.287),
    );
    let sample = probe(0.7169, 0.1776, 0.4286, 0.5204, -37.7920, -136.356, -1953.203);
    assert!(degenerate.take_datum(Datum::new(sample)).is_none());
    assert!(femur.take_datum(DataFemur::new(
        probe(0.7169, 0.1776, 0.4286, 0.5204, -37.7920, -136.356, -1953.203)
    )).is_some());
}
