use exgui::scalar::{Real, SCALE};

fn r(n: i32) -> Real {
    Real::from_int(n)
}

#[test]
fn whole_numbers_scale_by_a_million() {
    assert_eq!(SCALE, 1_000_000);
    assert_eq!(r(3).raw(), 3_000_000);
    assert_eq!(r(-7).raw(), -7_000_000);
    assert_eq!(Real::zero().raw(), 0);
    assert_eq!(Real::one().raw(), 1_000_000);
    assert_eq!(Real::from_raw(42).raw(), 42);
}

#[test]
fn add_and_sub_are_exact_in_range() {
    assert_eq!(r(2).add(r(3)), r(5));
    assert_eq!(r(2).sub(r(3)), r(-1));
    assert_eq!(Real::from_raw(1).add(Real::from_raw(-1)), Real::zero());
}

#[test]
fn add_and_sub_saturate() {
    let top = Real::from_raw(i64::MAX);
    let bottom = Real::from_raw(i64::MIN);
    assert_eq!(top.add(Real::from_raw(1)), top);
    assert_eq!(top.add(top), top);
    assert_eq!(bottom.sub(Real::from_raw(1)), bottom);
    assert_eq!(bottom.add(bottom), bottom);
    assert_eq!(Real::zero().sub(bottom), top);
}

#[test]
fn mul_scales_and_rounds_down() {
    assert_eq!(r(3).mul(r(4)), r(12));
    assert_eq!(Real::from_raw(500_000).mul(Real::from_raw(500_000)), Real::from_raw(250_000));
    assert_eq!(Real::from_raw(1).mul(Real::from_raw(1)), Real::zero());
    assert_eq!(Real::from_raw(-1).mul(Real::from_raw(1)), Real::from_raw(-1));
    assert_eq!(r(-3).mul(r(4)), r(-12));
    assert_eq!(Real::from_raw(1_500_000).mul(Real::from_raw(-1_500_000)), Real::from_raw(-2_250_000));
}

#[test]
fn mul_saturates() {
    let top = Real::from_raw(i64::MAX);
    let bottom = Real::from_raw(i64::MIN);
    assert_eq!(top.mul(top), top);
    assert_eq!(top.mul(bottom), bottom);
    assert_eq!(bottom.mul(bottom), top);
    assert_eq!(top.mul(Real::one()), top);
    assert_eq!(bottom.mul(Real::one()), bottom);
}

#[test]
fn half_rounds_down() {
    assert_eq!(r(40).half(), r(20));
    assert_eq!(Real::from_raw(3).half(), Real::from_raw(1));
    assert_eq!(Real::from_raw(-3).half(), Real::from_raw(-2));
    assert_eq!(Real::from_raw(-1).half(), Real::from_raw(-1));
    assert_eq!(Real::from_raw(i64::MIN).half(), Real::from_raw(i64::MIN / 2));
}

#[test]
fn percent_of_a_base() {
    assert_eq!(r(50).percent_of(r(200)), r(100));
    assert_eq!(r(100).percent_of(r(37)), r(37));
    assert_eq!(Real::from_raw(12_500_000).percent_of(r(80)), r(10));
    assert_eq!(r(0).percent_of(r(80)), r(0));
    assert_eq!(r(50).percent_of(r(0)), r(0));
    assert_eq!(r(-50).percent_of(r(10)), r(-5));
    assert_eq!(r(1).percent_of(Real::from_raw(1)), Real::zero());
    assert_eq!(r(-1).percent_of(Real::from_raw(1)), Real::from_raw(-1));
}

#[test]
fn percent_of_saturates() {
    let top = Real::from_raw(i64::MAX);
    assert_eq!(top.percent_of(top), top);
    assert_eq!(r(100).percent_of(top), top);
    assert_eq!(r(200).percent_of(top), top);
}

#[test]
fn min_max_and_order() {
    assert_eq!(r(2).min(r(3)), r(2));
    assert_eq!(r(2).max(r(3)), r(3));
    assert_eq!(r(-2).min(r(-3)), r(-3));
    assert!(r(2).lt(r(3)));
    assert!(!r(3).lt(r(3)));
    assert!(r(3).le(r(3)));
    assert!(!r(4).le(r(3)));
}
