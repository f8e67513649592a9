use sumo_traci::constants::{INVALID_DOUBLE_VALUE, INVALID_INT_VALUE};
use sumo_traci::types::{TraciColor, TraciPhase, TraciPosition, TraciStage};

#[test]
fn invalid_double_marker_is_minus_two_to_the_thirty() {
    assert_eq!(f64::from_bits(INVALID_DOUBLE_VALUE), -1_073_741_824.0);
}

#[test]
fn color_new_and_default() {
    let c = TraciColor::new(1, 2, 3, 4);
    assert_eq!((c.r, c.g, c.b, c.a), (1, 2, 3, 4));
    assert_eq!(TraciColor::default(), TraciColor::new(0, 0, 0, 255));
}

#[test]
fn position_dimensions() {
    let p2 = TraciPosition::new_2d(1.0f64.to_bits(), 2.0f64.to_bits());
    assert_eq!(p2.z, INVALID_DOUBLE_VALUE);
    assert!(!p2.is_3d());
    let p3 = TraciPosition::new_3d(1.0f64.to_bits(), 2.0f64.to_bits(), 0.0f64.to_bits());
    assert!(p3.is_3d());
    let d = TraciPosition::default();
    assert_eq!((d.x, d.y, d.z), (INVALID_DOUBLE_VALUE, INVALID_DOUBLE_VALUE, INVALID_DOUBLE_VALUE));
}

#[test]
fn stage_and_phase_defaults() {
    let s = TraciStage::default();
    assert_eq!(s.type_, INVALID_INT_VALUE);
    assert_eq!(s.cost, INVALID_DOUBLE_VALUE);
    assert!(s.edges.is_empty() && s.description.is_empty());
    let p = TraciPhase::default();
    assert_eq!(p.duration, INVALID_DOUBLE_VALUE);
    assert!(p.next.is_empty() && p.state.is_empty());
}
