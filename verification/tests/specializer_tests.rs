use specializer::Factor;
use specializer::Shape;
use specializer::ShapedValue;
use specializer::Specializer;
use specializer::SpecializerBorrowed;
use specializer::SpecializerBorrowedParam;
use specializer::SpecializerBorrowedReturn;
use specializer::Transform;
use specializer::TypeTag;
use specializer::Value;

fn scale(f: Factor, t: TypeTag) -> Transform {
    Transform::Scale(f, Shape::Owned(t))
}

fn text_const(s: &str) -> Transform {
    Transform::Const(ShapedValue::Owned(Value::Text(String::from(s))))
}

#[test]
fn fallback_alone_runs_the_fallback() {
    let r = Specializer::new(Value::I32(3), TypeTag::I32, Transform::Identity).run();
    assert_eq!(r, Value::I32(3));
    let r2 = Specializer::new(Value::U8(5), TypeTag::Text, text_const("fallback")).run();
    assert_eq!(r2, Value::Text(String::from("fallback")));
}

#[test]
fn exact_match_runs_the_candidate_once_with_content_intact() {
    let r = Specializer::new(Value::I32(3), TypeTag::I32, text_const("never"))
        .specialize(TypeTag::I32, TypeTag::I32, scale(Factor::Two, TypeTag::I32))
        .run();
    assert_eq!(r, Value::I32(6));
}

#[test]
fn last_added_candidate_wins() {
    let r = Specializer::new(Value::I32(3), TypeTag::I32, Transform::Identity)
        .specialize(TypeTag::I32, TypeTag::I32, scale(Factor::Two, TypeTag::I32))
        .specialize(TypeTag::I32, TypeTag::I32, scale(Factor::Three, TypeTag::I32))
        .run();
    assert_eq!(r, Value::I32(9));
}

#[test]
fn unmatched_candidates_fall_back_to_unknown() {
    // A 16-bit input matches neither the 32-bit nor the 8-bit candidate.
    let r = Specializer::new(Value::I16(3), TypeTag::Text, text_const("unknown"))
        .specialize(TypeTag::I32, TypeTag::I32, scale(Factor::Two, TypeTag::I32))
        .specialize(TypeTag::U8, TypeTag::U8, scale(Factor::Three, TypeTag::U8))
        .run();
    assert_eq!(r, Value::Text(String::from("unknown")));
}

#[test]
fn exact_type_guard_wins_over_the_generic_fallback() {
    // An 8-bit input under a widening fallback still selects the 8-bit
    // tripling candidate.
    let r = Specializer::new(Value::U8(3), TypeTag::I32, scale(Factor::One, TypeTag::I32))
        .specialize(TypeTag::I32, TypeTag::I32, scale(Factor::Two, TypeTag::I32))
        .specialize_param(TypeTag::U8, scale(Factor::Three, TypeTag::I32))
        .run();
    assert_eq!(r, Value::I32(9));
}

#[test]
fn return_guard_selects_by_target_type() {
    let r = Specializer::new(Value::I32(3), TypeTag::I32, text_const("never"))
        .specialize_return(TypeTag::Text, text_const("text"))
        .specialize_return(TypeTag::I32, scale(Factor::Two, TypeTag::I32))
        .run();
    assert_eq!(r, Value::I32(6));
    let r2 = Specializer::new(Value::I32(3), TypeTag::Text, text_const("never"))
        .specialize_return(TypeTag::Text, text_const("text"))
        .specialize_return(TypeTag::I32, scale(Factor::Two, TypeTag::I32))
        .run();
    assert_eq!(r2, Value::Text(String::from("text")));
}

#[test]
fn widening_fallback_preserves_content() {
    let r = Specializer::new(Value::U8(200), TypeTag::I64, scale(Factor::One, TypeTag::I64)).run();
    assert_eq!(r, Value::I64(200));
}

#[test]
fn scaling_wraps_around_on_overflow() {
    let r = Specializer::new(Value::I32(i32::MAX), TypeTag::I32, Transform::Identity)
        .specialize(TypeTag::I32, TypeTag::I32, scale(Factor::Two, TypeTag::I32))
        .run();
    assert_eq!(r, Value::I32(i32::MAX.wrapping_mul(2)));
    let r2 = Specializer::new(Value::U8(100), TypeTag::U8, Transform::Identity)
        .specialize(TypeTag::U8, TypeTag::U8, scale(Factor::Three, TypeTag::U8))
        .run();
    assert_eq!(r2, Value::U8(100u8.wrapping_mul(3)));
}

#[test]
fn premap_and_postmap_run_around_the_core() {
    let r = Specializer::new(Value::I32(3), TypeTag::I32, Transform::Identity)
        .specialize_map(
            TypeTag::I32,
            TypeTag::I32,
            scale(Factor::Two, TypeTag::I32),
            Transform::Identity,
            scale(Factor::Three, TypeTag::I32),
        )
        .run();
    assert_eq!(r, Value::I32(18));
}

#[test]
fn one_sided_maps_elide_the_other_side() {
    let r = Specializer::new(Value::I32(5), TypeTag::I32, Transform::Identity)
        .specialize_map_param(
            TypeTag::I32,
            scale(Factor::Three, TypeTag::I32),
            Transform::Identity,
        )
        .run();
    assert_eq!(r, Value::I32(15));
    let r2 = Specializer::new(Value::I32(5), TypeTag::I32, Transform::Identity)
        .specialize_map_return(
            TypeTag::I32,
            Transform::Identity,
            scale(Factor::Two, TypeTag::I32),
        )
        .run();
    assert_eq!(r2, Value::I32(10));
}

#[test]
fn mapped_candidate_with_unmatched_guard_is_skipped() {
    let r = Specializer::new(Value::I32(5), TypeTag::I32, Transform::Identity)
        .specialize_map(
            TypeTag::U8,
            TypeTag::I32,
            scale(Factor::Three, TypeTag::U8),
            Transform::Identity,
            scale(Factor::Two, TypeTag::I32),
        )
        .run();
    assert_eq!(r, Value::I32(5));
}

#[test]
fn shared_borrow_never_satisfies_an_exclusive_candidate() {
    let r = SpecializerBorrowed::new(
        ShapedValue::SharedRef(Value::I32(3)),
        Shape::SharedRef(TypeTag::I32),
        Shape::SharedRef(TypeTag::I32),
        Transform::Identity,
    )
    .specialize(
        Shape::ExclusiveRef(TypeTag::I32),
        Shape::SharedRef(TypeTag::I32),
        Transform::Scale(Factor::Two, Shape::SharedRef(TypeTag::I32)),
    )
    .run();
    assert_eq!(r, ShapedValue::SharedRef(Value::I32(3)));
}

#[test]
fn exclusive_borrow_never_satisfies_a_shared_candidate() {
    let r = SpecializerBorrowed::new(
        ShapedValue::ExclusiveRef(Value::I32(3)),
        Shape::ExclusiveRef(TypeTag::I32),
        Shape::ExclusiveRef(TypeTag::I32),
        Transform::Identity,
    )
    .specialize(
        Shape::SharedRef(TypeTag::I32),
        Shape::ExclusiveRef(TypeTag::I32),
        Transform::Scale(Factor::Two, Shape::ExclusiveRef(TypeTag::I32)),
    )
    .run();
    assert_eq!(r, ShapedValue::ExclusiveRef(Value::I32(3)));
}

#[test]
fn matching_exclusive_candidate_transforms_in_its_borrow_form() {
    let r = SpecializerBorrowed::new(
        ShapedValue::ExclusiveRef(Value::I32(3)),
        Shape::ExclusiveRef(TypeTag::I32),
        Shape::ExclusiveRef(TypeTag::I32),
        Transform::Identity,
    )
    .specialize(
        Shape::ExclusiveRef(TypeTag::I32),
        Shape::ExclusiveRef(TypeTag::I32),
        Transform::Scale(Factor::Two, Shape::ExclusiveRef(TypeTag::I32)),
    )
    .run();
    assert_eq!(r, ShapedValue::ExclusiveRef(Value::I32(6)));
}

#[test]
fn absent_input_matches_no_differently_typed_candidate_guard() {
    // The dispatch guard is the pure shape query, so the cast-level leniency
    // for absent optionals does not widen candidate selection.
    let declared = Shape::Optional(Box::new(Shape::Owned(TypeTag::I32)));
    let target = Shape::Optional(Box::new(Shape::Owned(TypeTag::I32)));
    let r = SpecializerBorrowed::new(
        ShapedValue::Absent,
        declared,
        target,
        Transform::Identity,
    )
    .specialize(
        Shape::Optional(Box::new(Shape::Owned(TypeTag::U8))),
        Shape::Optional(Box::new(Shape::Owned(TypeTag::I32))),
        Transform::Const(ShapedValue::Present(Box::new(ShapedValue::Owned(
            Value::I32(1),
        )))),
    )
    .run();
    assert_eq!(r, ShapedValue::Absent);
}

#[test]
fn borrowed_param_builder_produces_an_owned_leaf() {
    let r = SpecializerBorrowedParam::new(
        ShapedValue::ExclusiveRef(Value::I32(5)),
        Shape::ExclusiveRef(TypeTag::I32),
        TypeTag::I32,
        scale(Factor::One, TypeTag::I32),
    )
    .specialize_param(
        Shape::ExclusiveRef(TypeTag::I32),
        scale(Factor::Two, TypeTag::I32),
    )
    .run();
    assert_eq!(r, Value::I32(10));
}

#[test]
fn borrowed_param_builder_falls_back_across_leaf_types() {
    let r = SpecializerBorrowedParam::new(
        ShapedValue::SharedRef(Value::U8(9)),
        Shape::SharedRef(TypeTag::U8),
        TypeTag::I32,
        scale(Factor::One, TypeTag::I32),
    )
    .specialize_param(
        Shape::SharedRef(TypeTag::I32),
        scale(Factor::Two, TypeTag::I32),
    )
    .run();
    assert_eq!(r, Value::I32(9));
}

#[test]
fn borrowed_return_builder_produces_the_target_shape() {
    let target = Shape::Optional(Box::new(Shape::Owned(TypeTag::I32)));
    let r = SpecializerBorrowedReturn::new(
        Value::I32(3),
        target,
        Transform::Const(ShapedValue::Absent),
    )
    .specialize_param(
        TypeTag::I32,
        Transform::Const(ShapedValue::Present(Box::new(ShapedValue::Owned(
            Value::I32(42),
        )))),
    )
    .run();
    assert_eq!(
        r,
        ShapedValue::Present(Box::new(ShapedValue::Owned(Value::I32(42))))
    );
}

#[test]
fn borrowed_return_builder_falls_back_to_absent() {
    let target = Shape::Optional(Box::new(Shape::Owned(TypeTag::I32)));
    let r = SpecializerBorrowedReturn::new(
        Value::U8(3),
        target,
        Transform::Const(ShapedValue::Absent),
    )
    .specialize_param(
        TypeTag::I32,
        Transform::Const(ShapedValue::Present(Box::new(ShapedValue::Owned(
            Value::I32(42),
        )))),
    )
    .run();
    assert_eq!(r, ShapedValue::Absent);
}
