use r_sokoban::clamp;

#[test]
fn test_clamp_min() {
    assert_eq!(clamp(-1, 0, 10), 0);
}

#[test]
fn test_clamp_max() {
    assert_eq!(clamp(11, 0, 10), 10);
}

#[test]
fn test_clamp_within() {
    assert_eq!(clamp(5, 0, 10), 5);
}

#[test]
fn clamp_keeps_bounds_themselves() {
    assert_eq!(clamp(0, 0, 10), 0);
    assert_eq!(clamp(10, 0, 10), 10);
}
