use specializer::applies;
use specializer::cast_identity;
use specializer::cast_identity_borrowed;
use specializer::cast_identity_mut;
use specializer::cast_identity_ref;
use specializer::select_candidate;
use specializer::value_fits;
use specializer::CastIdentityBorrowed;
use specializer::Factor;
use specializer::Shape;
use specializer::ShapedValue;
use specializer::Transform;
use specializer::TypeTag;
use specializer::Value;

fn opt(inner: Shape) -> Shape {
    Shape::Optional(Box::new(inner))
}

fn two_arm(ok: Shape, err: Shape) -> Shape {
    Shape::TwoArm(Box::new(ok), Box::new(err))
}

fn tri(inner: Shape) -> Shape {
    Shape::TriState(Box::new(inner))
}

#[test]
fn owned_cast_same_type_returns_content_equal() {
    assert_eq!(
        cast_identity(Value::I32(3), TypeTag::I32),
        Some(Value::I32(3))
    );
    assert_eq!(
        cast_identity(Value::Text(String::from("hello")), TypeTag::Text),
        Some(Value::Text(String::from("hello")))
    );
}

#[test]
fn owned_cast_empty_type_follows_identity_rule() {
    assert_eq!(cast_identity(Value::Unit, TypeTag::Unit), Some(Value::Unit));
    assert_eq!(cast_identity(Value::Unit, TypeTag::Bool), None);
}

#[test]
fn owned_cast_different_type_fails_softly() {
    assert_eq!(cast_identity(Value::I32(3), TypeTag::U8), None);
    assert_eq!(cast_identity(Value::I16(3), TypeTag::I32), None);
    assert_eq!(cast_identity(Value::Text(String::from("3")), TypeTag::I32), None);
}

#[test]
fn ref_cast_mirrors_owned_cast() {
    let v = Value::U8(7);
    assert_eq!(cast_identity_ref(&v, TypeTag::U8), Some(&Value::U8(7)));
    assert_eq!(cast_identity_ref(&v, TypeTag::U16), None);
    assert_eq!(v, Value::U8(7));
}

#[test]
fn mut_cast_gives_write_access_on_match_only() {
    let mut v = Value::I64(1);
    assert_eq!(cast_identity_mut(&mut v, TypeTag::U8), None);
    assert_eq!(v, Value::I64(1));
    if let Some(m) = cast_identity_mut(&mut v, TypeTag::I64) {
        *m = Value::I64(2);
    } else {
        panic!("cast to the declared type must succeed");
    }
    assert_eq!(v, Value::I64(2));
}

#[test]
fn borrowed_cast_same_shape_succeeds() {
    let d = opt(Shape::SharedRef(TypeTag::I32));
    let t = opt(Shape::SharedRef(TypeTag::I32));
    let v = ShapedValue::Present(Box::new(ShapedValue::SharedRef(Value::I32(9))));
    assert_eq!(
        cast_identity_borrowed(v, &d, &t),
        Some(ShapedValue::Present(Box::new(ShapedValue::SharedRef(
            Value::I32(9)
        ))))
    );
}

#[test]
fn borrowed_cast_is_gated_on_the_shape_query() {
    // The guarded entry point reports no match for an absent optional of a
    // different leaf type; the structural cast alone accepts it.
    let d = opt(Shape::SharedRef(TypeTag::I32));
    let t = opt(Shape::SharedRef(TypeTag::U8));
    assert_eq!(cast_identity_borrowed(ShapedValue::Absent, &d, &t), None);
}

#[test]
fn absent_optional_casts_to_any_optional_target() {
    let d = opt(Shape::SharedRef(TypeTag::I32));
    let t = opt(Shape::SharedRef(TypeTag::U8));
    assert_eq!(
        ShapedValue::Absent.cast_identity(&d, &t),
        Some(ShapedValue::Absent)
    );
    let d2 = opt(Shape::Owned(TypeTag::Text));
    let t2 = opt(tri(Shape::ExclusiveRef(TypeTag::Bool)));
    assert_eq!(
        ShapedValue::Absent.cast_identity(&d2, &t2),
        Some(ShapedValue::Absent)
    );
}

#[test]
fn present_optional_casts_only_to_its_own_shape() {
    let d = opt(Shape::SharedRef(TypeTag::I32));
    let t = opt(Shape::SharedRef(TypeTag::U8));
    let v = ShapedValue::Present(Box::new(ShapedValue::SharedRef(Value::I32(9))));
    assert_eq!(v.cast_identity(&d, &t), None);
}

#[test]
fn nested_absent_gets_no_quirk() {
    // Some(None): the quirk holds at the outermost level only; a nested
    // absent optional is guarded by the inner shape query.
    let d = opt(opt(Shape::SharedRef(TypeTag::I32)));
    let t = opt(opt(Shape::SharedRef(TypeTag::U8)));
    let v = ShapedValue::Present(Box::new(ShapedValue::Absent));
    assert_eq!(v.cast_identity(&d, &t), None);
    let t_same = opt(opt(Shape::SharedRef(TypeTag::I32)));
    let v_again = ShapedValue::Present(Box::new(ShapedValue::Absent));
    assert_eq!(
        v_again.cast_identity(&d, &t_same),
        Some(ShapedValue::Present(Box::new(ShapedValue::Absent)))
    );
}

#[test]
fn pending_tri_state_casts_to_any_tri_state_target() {
    let d = tri(Shape::Owned(TypeTag::I32));
    let t = tri(Shape::Owned(TypeTag::Text));
    assert_eq!(
        ShapedValue::Pending.cast_identity(&d, &t),
        Some(ShapedValue::Pending)
    );
    let t2 = opt(Shape::Owned(TypeTag::I32));
    assert_eq!(ShapedValue::Pending.cast_identity(&d, &t2), None);
}

#[test]
fn two_arm_checks_only_the_inhabited_arm() {
    let d = two_arm(Shape::Owned(TypeTag::I32), Shape::Owned(TypeTag::Text));
    let t = two_arm(Shape::Owned(TypeTag::I32), Shape::Owned(TypeTag::U8));
    let ok_v = ShapedValue::OkArm(Box::new(ShapedValue::Owned(Value::I32(1))));
    assert_eq!(
        ok_v.cast_identity(&d, &t),
        Some(ShapedValue::OkArm(Box::new(ShapedValue::Owned(
            Value::I32(1)
        ))))
    );
    let err_v = ShapedValue::ErrArm(Box::new(ShapedValue::Owned(Value::Text(String::from("e")))));
    let d2 = two_arm(Shape::Owned(TypeTag::I32), Shape::Owned(TypeTag::Text));
    let t2 = two_arm(Shape::Owned(TypeTag::I32), Shape::Owned(TypeTag::U8));
    assert_eq!(err_v.cast_identity(&d2, &t2), None);
}

#[test]
fn tuple_cast_fails_on_any_component() {
    let d = Shape::Tuple2(
        Box::new(Shape::Owned(TypeTag::I32)),
        Box::new(Shape::Owned(TypeTag::U8)),
    );
    let t_bad = Shape::Tuple2(
        Box::new(Shape::Owned(TypeTag::I32)),
        Box::new(Shape::Owned(TypeTag::U16)),
    );
    let v = ShapedValue::Tuple2(
        Box::new(ShapedValue::Owned(Value::I32(1))),
        Box::new(ShapedValue::Owned(Value::U8(2))),
    );
    assert_eq!(v.cast_identity(&d, &t_bad), None);
    let t_good = Shape::Tuple2(
        Box::new(Shape::Owned(TypeTag::I32)),
        Box::new(Shape::Owned(TypeTag::U8)),
    );
    let v2 = ShapedValue::Tuple2(
        Box::new(ShapedValue::Owned(Value::I32(1))),
        Box::new(ShapedValue::Owned(Value::U8(2))),
    );
    assert_eq!(
        v2.cast_identity(&d, &t_good),
        Some(ShapedValue::Tuple2(
            Box::new(ShapedValue::Owned(Value::I32(1))),
            Box::new(ShapedValue::Owned(Value::U8(2))),
        ))
    );
}

#[test]
fn wrapper_kind_mismatch_is_a_defined_no_match() {
    let shared = Shape::SharedRef(TypeTag::I32);
    let excl = Shape::ExclusiveRef(TypeTag::I32);
    let tup = Shape::Tuple1(Box::new(Shape::SharedRef(TypeTag::I32)));
    assert!(!shared.is_same(&excl));
    assert!(!excl.is_same(&shared));
    assert!(!tup.is_same(&shared));
    assert!(!shared.is_same(&opt(Shape::SharedRef(TypeTag::I32))));
    assert!(!tup.is_same(&Shape::Tuple2(
        Box::new(Shape::SharedRef(TypeTag::I32)),
        Box::new(Shape::SharedRef(TypeTag::I32)),
    )));
    let v = ShapedValue::SharedRef(Value::I32(3));
    assert_eq!(v.cast_identity(&shared, &excl), None);
    let v2 = ShapedValue::ExclusiveRef(Value::I32(3));
    assert_eq!(v2.cast_identity(&excl, &shared), None);
}

#[test]
fn pinned_borrow_casts_preserve_the_value() {
    let d = Shape::PinnedExclusiveRef(TypeTag::U16);
    let t = Shape::PinnedExclusiveRef(TypeTag::U16);
    let v = ShapedValue::PinnedExclusiveRef(Value::U16(4));
    assert_eq!(
        v.cast_identity(&d, &t),
        Some(ShapedValue::PinnedExclusiveRef(Value::U16(4)))
    );
    let v2 = ShapedValue::PinnedSharedRef(Value::U16(4));
    let d2 = Shape::PinnedSharedRef(TypeTag::U16);
    assert_eq!(
        v2.cast_identity(&d2, &Shape::PinnedExclusiveRef(TypeTag::U16)),
        None
    );
}

#[test]
fn value_fits_checks_shapes_structurally() {
    let v = ShapedValue::Present(Box::new(ShapedValue::SharedRef(Value::I32(1))));
    assert!(value_fits(&v, &opt(Shape::SharedRef(TypeTag::I32))));
    assert!(!value_fits(&v, &opt(Shape::SharedRef(TypeTag::U8))));
    assert!(!value_fits(&v, &Shape::SharedRef(TypeTag::I32)));
    assert!(value_fits(&ShapedValue::Absent, &opt(Shape::Owned(TypeTag::Text))));
    assert!(value_fits(&ShapedValue::Pending, &tri(Shape::Owned(TypeTag::I8))));
    assert!(!value_fits(&ShapedValue::Pending, &opt(Shape::Owned(TypeTag::I8))));
}

#[test]
fn select_candidate_picks_the_last_match() {
    let guards = vec![
        (Shape::Owned(TypeTag::I32), Shape::Owned(TypeTag::I32)),
        (Shape::Owned(TypeTag::U8), Shape::Owned(TypeTag::I32)),
        (Shape::Owned(TypeTag::I32), Shape::Owned(TypeTag::I32)),
    ];
    let r = select_candidate(
        &guards,
        &Shape::Owned(TypeTag::I32),
        &Shape::Owned(TypeTag::I32),
    );
    assert_eq!(r, Some(2));
    let r2 = select_candidate(
        &guards,
        &Shape::Owned(TypeTag::U8),
        &Shape::Owned(TypeTag::I32),
    );
    assert_eq!(r2, Some(1));
    let r3 = select_candidate(
        &guards,
        &Shape::Owned(TypeTag::I16),
        &Shape::Owned(TypeTag::I32),
    );
    assert_eq!(r3, None);
}

#[test]
fn ready_tri_state_casts_by_shape_equality() {
    let d = tri(Shape::Owned(TypeTag::I32));
    let v = ShapedValue::Ready(Box::new(ShapedValue::Owned(Value::I32(1))));
    assert_eq!(
        v.cast_identity(&d, &tri(Shape::Owned(TypeTag::I32))),
        Some(ShapedValue::Ready(Box::new(ShapedValue::Owned(
            Value::I32(1)
        ))))
    );
    let v2 = ShapedValue::Ready(Box::new(ShapedValue::Owned(Value::I32(1))));
    assert_eq!(v2.cast_identity(&d, &tri(Shape::Owned(TypeTag::U8))), None);
}

#[test]
fn three_component_tuples_check_every_component() {
    let d = Shape::Tuple3(
        Box::new(Shape::Owned(TypeTag::I32)),
        Box::new(Shape::SharedRef(TypeTag::U8)),
        Box::new(opt(Shape::Owned(TypeTag::Text))),
    );
    let v = ShapedValue::Tuple3(
        Box::new(ShapedValue::Owned(Value::I32(1))),
        Box::new(ShapedValue::SharedRef(Value::U8(2))),
        Box::new(ShapedValue::Absent),
    );
    assert!(value_fits(&v, &d));
    let t_bad = Shape::Tuple3(
        Box::new(Shape::Owned(TypeTag::I32)),
        Box::new(Shape::SharedRef(TypeTag::U8)),
        Box::new(opt(Shape::Owned(TypeTag::Bool))),
    );
    assert_eq!(v.cast_identity(&d, &t_bad), None);
}

#[test]
fn applies_checks_candidate_typing_at_runtime() {
    let ident = Transform::Identity;
    assert!(applies(
        &ident,
        &Shape::Owned(TypeTag::I32),
        &Shape::Owned(TypeTag::I32)
    ));
    assert!(!applies(
        &ident,
        &Shape::Owned(TypeTag::I32),
        &Shape::Owned(TypeTag::I64)
    ));
    let widen = Transform::Scale(Factor::One, Shape::Owned(TypeTag::I64));
    assert!(applies(
        &widen,
        &Shape::Owned(TypeTag::U8),
        &Shape::Owned(TypeTag::I64)
    ));
    assert!(!applies(
        &widen,
        &Shape::Owned(TypeTag::I64),
        &Shape::Owned(TypeTag::U8)
    ));
    assert!(!applies(
        &widen,
        &opt(Shape::Owned(TypeTag::U8)),
        &Shape::Owned(TypeTag::I64)
    ));
    let constant = Transform::Const(ShapedValue::Absent);
    assert!(applies(
        &constant,
        &Shape::Owned(TypeTag::I32),
        &opt(Shape::Owned(TypeTag::U8))
    ));
    assert!(!applies(
        &constant,
        &Shape::Owned(TypeTag::I32),
        &Shape::Owned(TypeTag::U8)
    ));
}
