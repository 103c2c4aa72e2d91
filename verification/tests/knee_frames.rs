//! Tests of the anatomical frame builder: the femoral tracker fixture, the
//! full frame construction, orthonormality, side symmetry, and the
//! undefined-propagation policy for incomplete or degenerate calibration.

use jcs::bone_to_tracker::knee::Femur;
use jcs::bone_to_tracker::{DefinedTracker, Side};
use jcs::data::probe_data::{ProbeData, ProbeRawData};
use jcs::{CalibrationError, RigidBodyBuilder};

const S: f64 = 1048576.0;

fn s(v: f64) -> i128 {
    (v * S).round() as i128
}

fn close(a: i128, expected: f64, tol: f64) -> bool {
    let d: i128 = a - s(expected);
    let d: i128 = if d < 0 { -d } else { d };
    d <= s(tol)
}

fn probe(q0: f64, qx: f64, qy: f64, qz: f64, x: f64, y: f64, z: f64) -> ProbeData {
    let raw = ProbeRawData::new("Black Probe", "Probe", s(q0), s(qx), s(qy), s(qz), s(x), s(y), s(z));
    ProbeData::new(&raw).unwrap()
}

fn femur_medial() -> ProbeData {
    probe(
        0.822817363793104,
        0.135707186206897,
        0.440885412068966,
        -0.331890289655172,
        15.3196551724138,
        -54.9971034482759,
        -2097.60234482759,
    )
}

fn femur_lateral() -> ProbeData {
    probe(
        0.403151039655172,
        0.474684148275862,
        0.419551994827586,
        -0.66038950862069,
        16.9156724137931,
        16.2064655172414,
        -2059.31424137931,
    )
}

fn femur_proximal() -> ProbeData {
    probe(
        0.428051244067797,
        0.466236162711864,
        0.447185444067797,
        -0.631995389830509,
        -8.56891525423729,
        15.8874915254237,
        -2131.43533898305,
    )
}

fn femur_tracker() -> ProbeData {
    probe(0.9573733, -0.0372205, -0.1895465, 0.2147628, -149.371, -19.411, -2148.287)
}

/// Expected tracker rotation, cross-validated against an external
/// matrix-algebra reference computation.
const TRK_ROT: [[f64; 3]; 3] = [
    [0.8358, -0.3970, -0.3793],
    [0.4254, 0.9049, -0.0096],
    [0.3470, -0.1533, 0.9252],
];

fn check_tracker_matrix(tol: f64) {
    let t = Femur::tracker_in_global(femur_tracker());
    let cols = [t.i(), t.j(), t.k()];
    for c in 0..3 {
        assert!(close(cols[c].x, TRK_ROT[0][c], tol));
        assert!(close(cols[c].y, TRK_ROT[1][c], tol));
        assert!(close(cols[c].z, TRK_ROT[2][c], tol));
    }
    assert!(close(t.origin().x, -149.402, tol));
    assert!(close(t.origin().y, -19.4074, tol));
    assert!(close(t.origin().z, -2148.3, tol));
}

#[test]
fn knee_creates_femoral_tracker() {
    check_tracker_matrix(5.0e-2);
}

#[test]
fn rigid_body_creates_femoral_tracker() {
    check_tracker_matrix(5.0e-2);
}

fn right_femur() -> Femur {
    Femur::new(Side::Right, femur_medial(), femur_lateral(), femur_proximal(), femur_tracker())
}

#[test]
fn knee_tracker_transform() {
    let femur = right_femur();
    let in_global = femur.in_global().unwrap();
    let tol_rot = 2.0e-3;
    let tol_t = 5.0e-2;
    let i = in_global.i();
    let j = in_global.j();
    let k = in_global.k();
    let o = in_global.origin();
    assert!(close(i.x, -0.019738, tol_rot) && close(i.y, -0.880569, tol_rot) && close(i.z, -0.473506, tol_rot));
    assert!(close(j.x, -0.931045, tol_rot) && close(j.y, -0.156411, tol_rot) && close(j.z, 0.329684, tol_rot));
    assert!(close(k.x, -0.364371, tol_rot) && close(k.y, 0.447363, tol_rot) && close(k.z, -0.816762, tol_rot));
    assert!(close(o.x, 16.117664, tol_t) && close(o.y, -19.395319, tol_t) && close(o.z, -2078.458293, tol_t));
    let in_tracker = femur.in_tracker().unwrap();
    let ti = in_tracker.i();
    let tj = in_tracker.j();
    let tk = in_tracker.k();
    let to = in_tracker.origin();
    assert!(close(ti.x, -0.555309, tol_rot) && close(ti.y, -0.716766, tol_rot) && close(ti.z, -0.421756, tol_rot));
    assert!(close(tj.x, -0.730401, tol_rot) && close(tj.y, 0.177837, tol_rot) && close(tj.z, 0.659460, tol_rot));
    assert!(close(tk.x, -0.397675, tol_rot) && close(tk.y, 0.674255, tol_rot) && close(tk.z, -0.622282, tol_rot));
    assert!(close(to.x, 162.565149, tol_t) && close(to.y, -76.364056, tol_t) && close(to.z, 1.910397, tol_t));
}

#[test]
fn rigid_body_tracker_transform() {
    let femur = right_femur();
    let in_global = femur.in_global();
    assert!(in_global.is_some());
    println!("Femur in tracker {:?}", femur.in_tracker().is_some());
}

#[test]
fn frame_orthonormality() {
    let femur = right_femur();
    let f = femur.fixed_frame().unwrap();
    let cols = [f.i(), f.j(), f.k()];
    let s2: i128 = 1048576 * 1048576;
    let tol: i128 = s2 / 10000;
    for a in 0..3 {
        for b in 0..3 {
            let d: i128 = cols[a].x * cols[b].x + cols[a].y * cols[b].y + cols[a].z * cols[b].z;
            let want: i128 = if a == b { s2 } else { 0 };
            let diff: i128 = if d > want { d - want } else { want - d };
            assert!(diff <= tol);
        }
    }
}

#[test]
fn side_symmetry() {
    let right = right_femur();
    let left = Femur::new(Side::Left, femur_medial(), femur_lateral(), femur_proximal(), femur_tracker());
    let fr = right.fixed_frame().unwrap();
    let fl = left.fixed_frame().unwrap();
    // The first and second axes flip sign exactly; the origin and third axis
    // are unchanged, rounding included.
    assert_eq!(fl.i().x, -fr.i().x);
    assert_eq!(fl.i().y, -fr.i().y);
    assert_eq!(fl.i().z, -fr.i().z);
    assert_eq!(fl.j().x, -fr.j().x);
    assert_eq!(fl.j().y, -fr.j().y);
    assert_eq!(fl.j().z, -fr.j().z);
    assert_eq!(fl.k(), fr.k());
    assert_eq!(fl.origin(), fr.origin());
}

#[test]
fn degenerate_landmarks_undefined() {
    // Coincident medial and lateral landmarks leave the frame undefined.
    let femur = Femur::new(Side::Right, femur_medial(), femur_medial(), femur_proximal(), femur_tracker());
    assert!(femur.fixed_frame().is_none());
    assert!(femur.in_global().is_none());
    assert!(femur.in_tracker().is_none());
}

#[test]
fn builder_missing_landmark_is_reported() {
    let b = RigidBodyBuilder::<2>::new()
        .with_side(Side::Right)
        .with_lateral(femur_lateral())
        .with_far_landmark(femur_proximal())
        .with_tracker(femur_tracker());
    match b.finalize() {
        Err(e) => assert_eq!(e, CalibrationError::MissingMedial),
        Ok(_) => panic!("incomplete calibration must not finalize"),
    }
    let empty = RigidBodyBuilder::<2>::new();
    match empty.finalize() {
        Err(e) => assert_eq!(e, CalibrationError::MissingSide),
        Ok(_) => panic!("incomplete calibration must not finalize"),
    }
    let no_lateral = RigidBodyBuilder::<2>::new()
        .with_side(Side::Right)
        .with_medial(femur_medial());
    match no_lateral.finalize() {
        Err(e) => assert_eq!(e, CalibrationError::MissingLateral),
        Ok(_) => panic!("incomplete calibration must not finalize"),
    }
    let no_far = RigidBodyBuilder::<2>::new()
        .with_side(Side::Right)
        .with_medial(femur_medial())
        .with_lateral(femur_lateral());
    match no_far.finalize() {
        Err(e) => assert_eq!(e, CalibrationError::MissingFarLandmark),
        Ok(_) => panic!("incomplete calibration must not finalize"),
    }
    let no_tracker = RigidBodyBuilder::<2>::new()
        .with_side(Side::Right)
        .with_medial(femur_medial())
        .with_lateral(femur_lateral())
        .with_far_landmark(femur_proximal());
    match no_tracker.finalize() {
        Err(e) => assert_eq!(e, CalibrationError::MissingTracker),
        Ok(_) => panic!("incomplete calibration must not finalize"),
    }
}

#[test]
fn builder_complete_finalizes() {
    let femur = RigidBodyBuilder::<2>::new()
        .with_side(Side::Right)
        .with_medial(femur_medial())
        .with_lateral(femur_lateral())
        .with_far_landmark(femur_proximal())
        .with_tracker(femur_tracker())
        .finalize()
        .unwrap();
    assert!(femur.fixed_frame().is_some());
}

#[test]
fn zero_quaternion_rejected() {
    let raw = ProbeRawData::new("Black Probe", "Probe", 0, 0, 0, 0, s(1.0), s(2.0), s(3.0));
    assert!(ProbeData::new(&raw).is_none());
}
