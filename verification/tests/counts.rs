use lfit_rs::binning::{double_weight, BIN_SAMPLES};
use lfit_rs::blink::step_count;
use lfit_rs::errors::{PyErrorKind, RocheError};
use lfit_rs::whitedwarf::annulus_count;

#[test]
fn annuli_at_least_ten() {
    assert_eq!(annulus_count(0), 10);
    assert_eq!(annulus_count(3), 10);
    assert_eq!(annulus_count(10), 10);
    assert_eq!(annulus_count(57), 57);
}

#[test]
fn blink_steps_at_least_two() {
    assert_eq!(step_count(-5), 2);
    assert_eq!(step_count(0), 2);
    assert_eq!(step_count(2), 2);
    assert_eq!(step_count(7), 7);
}

#[test]
fn trapezoid_weights_of_five_samples() {
    let w: Vec<u32> = (0..BIN_SAMPLES).map(|i| double_weight(i, BIN_SAMPLES)).collect();
    assert_eq!(w, vec![1, 2, 2, 2, 1]);
    assert_eq!(w.iter().sum::<u32>(), 2 * (BIN_SAMPLES as u32 - 1));
}

#[test]
fn trapezoid_weights_two_samples() {
    assert_eq!(double_weight(0, 2), 1);
    assert_eq!(double_weight(1, 2), 1);
}

#[test]
fn roche_error_messages() {
    assert_eq!(RocheError::DbrentError.message(), "failed to bracket minimum with dbrent");
    assert_eq!(RocheError::ParameterError("q = -1 <= 0".to_string()).message(), "q = -1 <= 0");
    assert_eq!(RocheError::FaceError("face failed".to_string()).message(), "face failed");
    assert_eq!(RocheError::RtsafeError("no root".to_string()).message(), "no root");
}

#[test]
fn roche_error_python_kinds() {
    assert_eq!(RocheError::DbrentError.py_kind(), PyErrorKind::Runtime);
    assert_eq!(RocheError::ParameterError("x".to_string()).py_kind(), PyErrorKind::Value);
    assert_eq!(RocheError::FaceError("x".to_string()).py_kind(), PyErrorKind::Runtime);
    assert_eq!(RocheError::RtsafeError("x".to_string()).py_kind(), PyErrorKind::Runtime);
}
