use druid::transform_box::{AaRotation, AaTransform};

#[test]
fn clockwise_four_times_is_identity() {
    let r = AaRotation::clockwise_quarter();
    assert_eq!(r.clockwise().clockwise().clockwise().clockwise(), r);
    assert_eq!(AaRotation::origin().clockwise(), AaRotation::clockwise_quarter());
    assert_eq!(AaRotation::counter_clockwise_quarter().clockwise(), AaRotation::origin());
}

#[test]
fn counter_clockwise_undoes_clockwise() {
    for r in [AaRotation::origin(), AaRotation::clockwise_quarter(), AaRotation::half_way(), AaRotation::counter_clockwise_quarter()] {
        assert_eq!(r.clockwise().counter_clockwise(), r);
        assert_eq!(r.counter_clockwise().clockwise(), r);
        assert_eq!(r.flipped(), r.clockwise().clockwise());
    }
    assert_eq!(AaRotation::origin().counter_clockwise(), AaRotation::counter_clockwise_quarter());
}

#[test]
fn axis_flips_on_odd_quarter_turns() {
    assert!(!AaRotation::origin().is_axis_flipped());
    assert!(AaRotation::clockwise_quarter().is_axis_flipped());
    assert!(!AaRotation::half_way().is_axis_flipped());
    assert!(AaRotation::counter_clockwise_quarter().is_axis_flipped());
}

#[test]
fn rotations_add_and_subtract_modulo_four() {
    let a = AaRotation::counter_clockwise_quarter();
    let b = AaRotation::half_way();
    assert_eq!(a + b, AaRotation::clockwise_quarter());
    assert_eq!(b + a, AaRotation::clockwise_quarter());
    assert_eq!(a - b, AaRotation::clockwise_quarter());
    assert_eq!(AaRotation::half_way() - AaRotation::half_way(), AaRotation::origin());
    assert_eq!(AaRotation::default(), AaRotation::origin());
}

#[test]
fn transform_flips_and_rotations() {
    let t = AaTransform::default();
    assert_eq!(t.get_rotation(), AaRotation::origin());
    assert!(!t.is_flipped());
    let h = t.flipped_horizontal();
    assert!(h.is_flipped());
    assert_eq!(h.get_rotation(), AaRotation::origin());
    assert_eq!(h.flipped_horizontal(), t);
    let v = t.flipped_vertical();
    assert!(v.is_flipped());
    assert_eq!(v.get_rotation(), AaRotation::half_way());
    assert_eq!(v.flipped_vertical(), t);
    assert_eq!(t.flipped_horizontal().rotated(AaRotation::half_way()), v);
    let r = t.rotated(AaRotation::clockwise_quarter()).rotated(AaRotation::half_way());
    assert_eq!(r.get_rotation(), AaRotation::counter_clockwise_quarter());
    let mut m = t;
    m.rotate(AaRotation::clockwise_quarter());
    m.flip_horizontal();
    m.flip_vertical();
    assert_eq!(m.get_rotation(), AaRotation::counter_clockwise_quarter());
    assert!(!m.is_flipped());
}

#[test]
fn transform_orients_dimensions() {
    let t = AaTransform::default();
    assert_eq!(t.oriented(3, 5), (3, 5));
    assert_eq!(t.rotated(AaRotation::clockwise_quarter()).oriented(3, 5), (5, 3));
    assert_eq!(t.rotated(AaRotation::half_way()).oriented(3, 5), (3, 5));
}

#[test]
fn subtraction_where_defined_is_undone_by_addition() {
    let all = [AaRotation::origin(), AaRotation::clockwise_quarter(), AaRotation::half_way(), AaRotation::counter_clockwise_quarter()];
    for a in all {
        for b in all {
            if a.quarter_turns() >= b.quarter_turns() {
                let d = a - b;
                assert!(d.quarter_turns() < 4);
                assert_eq!(d.quarter_turns(), a.quarter_turns() - b.quarter_turns());
                assert_eq!(d + b, a);
            }
        }
    }
}
