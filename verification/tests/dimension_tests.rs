use exgui::dimension::{Dimension, DimensionKind, Padding};
use exgui::matrix::TransformMatrix;
use exgui::scalar::Real;
use exgui::transform::Transform;

fn r(n: i32) -> Real {
    Real::from_int(n)
}

#[test]
fn percent_resolves_against_the_base() {
    let mut d = Dimension::percent(r(25));
    assert_eq!(d.val(), r(0));
    assert!(d.resolve_percent(r(80)));
    assert_eq!(d.val(), r(20));
    assert_eq!(d.kind, DimensionKind::Percent(r(25)));
}

#[test]
fn percent_resolution_is_idempotent() {
    let mut once = Dimension::percent(r(25));
    once.resolve_percent(r(80));
    let mut twice = once;
    assert!(twice.resolve_percent(r(80)));
    assert_eq!(twice, once);
}

#[test]
fn percent_follows_the_current_base() {
    let mut d = Dimension::percent(r(50));
    d.resolve_percent(r(80));
    d.resolve_percent(r(10));
    assert_eq!(d.val(), r(5));
}

#[test]
fn percent_resolution_leaves_other_kinds_alone() {
    let mut a = Dimension::absolute(r(7));
    assert!(!a.resolve_percent(r(80)));
    assert_eq!(a, Dimension::absolute(r(7)));
    let mut auto = Dimension::auto();
    assert!(!auto.resolve_percent(r(80)));
    assert_eq!(auto, Dimension::auto());
}

#[test]
fn percent_of_a_zero_base_is_zero() {
    let mut d = Dimension::percent(r(75));
    assert!(d.resolve_percent(r(0)));
    assert_eq!(d.val(), r(0));
}

#[test]
fn auto_takes_the_value_given() {
    let mut d = Dimension::auto();
    d.resolve_auto(r(33));
    assert_eq!(d.val(), r(33));
    assert!(d.is_auto());
    d.resolve_auto(r(33));
    assert_eq!(d.val(), r(33));
}

#[test]
fn auto_resolution_leaves_other_kinds_alone() {
    let mut a = Dimension::absolute(r(7));
    a.resolve_auto(r(33));
    assert_eq!(a, Dimension::absolute(r(7)));
    let mut p = Dimension::percent(r(10));
    p.resolve_percent(r(50));
    let resolved = p;
    p.resolve_auto(r(33));
    assert_eq!(p, resolved);
    assert_eq!(p.val(), r(5));
    assert!(p.is_percent());
}

#[test]
fn place_counts_the_origin_once() {
    let mut d = Dimension::percent(r(10));
    d.place(r(200), r(100));
    assert_eq!(d.val(), r(120));
    d.place(r(200), r(100));
    assert_eq!(d.val(), r(120));
    let mut a = Dimension::absolute(r(7));
    a.place(r(200), r(100));
    assert_eq!(a.val(), r(7));
}

#[test]
fn default_dimension_is_absolute_zero() {
    assert_eq!(Dimension::default(), Dimension::absolute(r(0)));
}

#[test]
fn padding_sums() {
    let p = Padding {
        left: Dimension::absolute(r(1)),
        right: Dimension::absolute(r(2)),
        top: Dimension::absolute(r(3)),
        bottom: Dimension::absolute(r(4)),
    };
    assert_eq!(p.left_and_right(), r(3));
    assert_eq!(p.top_and_bottom(), r(7));
    assert_eq!(Padding::zero().left_and_right(), r(0));
    assert_eq!(Padding::default(), Padding::zero());
}

#[test]
fn transform_that_declares_nothing() {
    let t = Transform::none();
    assert!(t.is_not_exist());
    assert!(!t.is_absolute());
    assert_eq!(t.matrix(), TransformMatrix::identity());
    assert_eq!(t.calculated_matrix(), None);
    assert_eq!(Transform::default(), t);
}

#[test]
fn compose_global_of_nothing_is_the_parent() {
    let parent = TransformMatrix { a: r(2), b: r(0), c: r(0), d: r(2), e: r(5), f: r(6) };
    let mut t = Transform::none();
    assert_eq!(t.compose_global(parent), parent);
    assert_eq!(t.calculated_matrix(), Some(parent));
    assert!(t.is_not_exist());
}

#[test]
fn compose_global_of_a_relative_transform() {
    let parent = TransformMatrix { a: r(1), b: r(0), c: r(0), d: r(1), e: r(10), f: r(20) };
    let local = TransformMatrix { a: r(2), b: r(0), c: r(0), d: r(2), e: r(1), f: r(1) };
    let mut t = Transform::with_matrix(local);
    assert!(!t.is_not_exist());
    let expected = TransformMatrix { a: r(2), b: r(0), c: r(0), d: r(2), e: r(11), f: r(21) };
    assert_eq!(t.compose_global(parent), expected);
    assert_eq!(t.calculated_matrix(), Some(expected));
    assert_eq!(t.matrix(), local);
}

#[test]
fn compose_global_of_an_absolute_transform_ignores_the_parent() {
    let parent = TransformMatrix { a: r(1), b: r(0), c: r(0), d: r(1), e: r(10), f: r(20) };
    let local = TransformMatrix { a: r(2), b: r(0), c: r(0), d: r(2), e: r(1), f: r(1) };
    let mut t = Transform::with_matrix(local).into_absolute();
    assert!(t.is_absolute());
    assert_eq!(t.compose_global(parent), local);
    assert_eq!(t.calculated_matrix(), Some(local));
    let mut bare = Transform::none().into_absolute();
    assert!(!bare.is_not_exist());
    assert_eq!(bare.compose_global(parent), TransformMatrix::identity());
}
