use vstd::prelude::*;

use crate::tag::TypeTag;
use crate::tag::Value;

verus! {

/// The closed set of ownership and container shapes a value can be declared
/// at.  Leaves pair a borrow form with a leaf type; structural wrappers
/// recurse into contained shapes.
#[derive(Debug, PartialEq)]
pub enum Shape {
    /// A value held by its owner.
    Owned(TypeTag),
    /// A shared borrow of a leaf value.
    SharedRef(TypeTag),
    /// An exclusive borrow of a leaf value.
    ExclusiveRef(TypeTag),
    /// A pinned shared borrow.
    PinnedSharedRef(TypeTag),
    /// A pinned exclusive borrow.
    PinnedExclusiveRef(TypeTag),
    /// An optional value of the inner shape.
    Optional(Box<Shape>),
    /// A two-armed result: success arm first, failure arm second.
    TwoArm(Box<Shape>, Box<Shape>),
    /// A tri-state value: pending, or ready with the inner shape.
    TriState(Box<Shape>),
    /// A tuple of one component.
    Tuple1(Box<Shape>),
    /// A tuple of two components.
    Tuple2(Box<Shape>, Box<Shape>),
    /// A tuple of three components.
    Tuple3(Box<Shape>, Box<Shape>, Box<Shape>),
}

/// A value together with the shape it is held at.
///
/// The absent optional and the pending tri-state carry no value, and so no
/// leaf type; every other variant determines its shape up to leaf tags.
#[derive(Debug, PartialEq)]
pub enum ShapedValue {
    /// An owned leaf value.
    Owned(Value),
    /// A leaf value behind a shared borrow.
    SharedRef(Value),
    /// A leaf value behind an exclusive borrow.
    ExclusiveRef(Value),
    /// A leaf value behind a pinned shared borrow.
    PinnedSharedRef(Value),
    /// A leaf value behind a pinned exclusive borrow.
    PinnedExclusiveRef(Value),
    /// An optional with no value inside.
    Absent,
    /// An optional holding the inner value.
    Present(Box<ShapedValue>),
    /// The success arm of a two-armed result.
    OkArm(Box<ShapedValue>),
    /// The failure arm of a two-armed result.
    ErrArm(Box<ShapedValue>),
    /// A tri-state with no value yet.
    Pending,
    /// A tri-state holding the ready value.
    Ready(Box<ShapedValue>),
    /// A tuple of one component.
    Tuple1(Box<ShapedValue>),
    /// A tuple of two components.
    Tuple2(Box<ShapedValue>, Box<ShapedValue>),
    /// A tuple of three components.
    Tuple3(Box<ShapedValue>, Box<ShapedValue>, Box<ShapedValue>),
}

/// Whether `v` is a well-formed inhabitant of the declared shape `s`.
///
/// An absent optional and a pending tri-state inhabit every optional and
/// tri-state shape respectively: they carry no leaf to constrain.
pub open spec fn fits(v: ShapedValue, s: Shape) -> bool
    decreases v,
{
    match v {
        ShapedValue::Owned(x) => s matches Shape::Owned(t) && x.tag() == t,
        ShapedValue::SharedRef(x) => s matches Shape::SharedRef(t) && x.tag() == t,
        ShapedValue::ExclusiveRef(x) => s matches Shape::ExclusiveRef(t) && x.tag() == t,
        ShapedValue::PinnedSharedRef(x) => s matches Shape::PinnedSharedRef(t) && x.tag() == t,
        ShapedValue::PinnedExclusiveRef(x) => s matches Shape::PinnedExclusiveRef(t) && x.tag()
            == t,
        ShapedValue::Absent => s matches Shape::Optional(_),
        ShapedValue::Present(inner) => s matches Shape::Optional(t) && fits(*inner, *t),
        ShapedValue::OkArm(inner) => s matches Shape::TwoArm(a, _) && fits(*inner, *a),
        ShapedValue::ErrArm(inner) => s matches Shape::TwoArm(_, e) && fits(*inner, *e),
        ShapedValue::Pending => s matches Shape::TriState(_),
        ShapedValue::Ready(inner) => s matches Shape::TriState(t) && fits(*inner, *t),
        ShapedValue::Tuple1(a) => s matches Shape::Tuple1(sa) && fits(*a, *sa),
        ShapedValue::Tuple2(a, b) => s matches Shape::Tuple2(sa, sb) && fits(*a, *sa) && fits(
            *b,
            *sb,
        ),
        ShapedValue::Tuple3(a, b, c) => s matches Shape::Tuple3(sa, sb, sc) && fits(*a, *sa)
            && fits(*b, *sb) && fits(*c, *sc),
    }
}

/// The pure, value-independent shape query: every pair of shapes has a
/// defined answer, and none falls through to an implicit accept.
///
/// Two leaves match exactly when their borrow form and leaf tag agree; a
/// structural wrapper matches exactly when the wrapper kind agrees and every
/// contained shape matches; any mismatch of kinds is a defined no-match.
pub open spec fn shape_matches(a: Shape, b: Shape) -> bool
    decreases a,
{
    match a {
        Shape::Owned(t) => b matches Shape::Owned(u) && t == u,
        Shape::SharedRef(t) => b matches Shape::SharedRef(u) && t == u,
        Shape::ExclusiveRef(t) => b matches Shape::ExclusiveRef(u) && t == u,
        Shape::PinnedSharedRef(t) => b matches Shape::PinnedSharedRef(u) && t == u,
        Shape::PinnedExclusiveRef(t) => b matches Shape::PinnedExclusiveRef(u) && t == u,
        Shape::Optional(x) => b matches Shape::Optional(y) && shape_matches(*x, *y),
        Shape::TwoArm(x1, x2) => b matches Shape::TwoArm(y1, y2) && shape_matches(*x1, *y1)
            && shape_matches(*x2, *y2),
        Shape::TriState(x) => b matches Shape::TriState(y) && shape_matches(*x, *y),
        Shape::Tuple1(x) => b matches Shape::Tuple1(y) && shape_matches(*x, *y),
        Shape::Tuple2(x1, x2) => b matches Shape::Tuple2(y1, y2) && shape_matches(*x1, *y1)
            && shape_matches(*x2, *y2),
        Shape::Tuple3(x1, x2, x3) => b matches Shape::Tuple3(y1, y2, y3) && shape_matches(
            *x1,
            *y1,
        ) && shape_matches(*x2, *y2) && shape_matches(*x3, *y3),
    }
}

/// The shape query accepts exactly the pairs of equal shapes: matching never
/// crosses borrow forms, wrapper kinds, or differing leaf tags.
pub proof fn lemma_shape_matches_is_equality(a: Shape, b: Shape)
    ensures
        shape_matches(a, b) <==> a == b,
    decreases a,
{
    match a {
        Shape::Owned(_) => {},
        Shape::SharedRef(_) => {},
        Shape::ExclusiveRef(_) => {},
        Shape::PinnedSharedRef(_) => {},
        Shape::PinnedExclusiveRef(_) => {},
        Shape::Optional(x) => {
            if let Shape::Optional(y) = b {
                lemma_shape_matches_is_equality(*x, *y);
            }
        },
        Shape::TwoArm(x1, x2) => {
            if let Shape::TwoArm(y1, y2) = b {
                lemma_shape_matches_is_equality(*x1, *y1);
                lemma_shape_matches_is_equality(*x2, *y2);
            }
        },
        Shape::TriState(x) => {
            if let Shape::TriState(y) = b {
                lemma_shape_matches_is_equality(*x, *y);
            }
        },
        Shape::Tuple1(x) => {
            if let Shape::Tuple1(y) = b {
                lemma_shape_matches_is_equality(*x, *y);
            }
        },
        Shape::Tuple2(x1, x2) => {
            if let Shape::Tuple2(y1, y2) = b {
                lemma_shape_matches_is_equality(*x1, *y1);
                lemma_shape_matches_is_equality(*x2, *y2);
            }
        },
        Shape::Tuple3(x1, x2, x3) => {
            if let Shape::Tuple3(y1, y2, y3) = b {
                lemma_shape_matches_is_equality(*x1, *y1);
                lemma_shape_matches_is_equality(*x2, *y2);
                lemma_shape_matches_is_equality(*x3, *y3);
            }
        },
    }
}

impl Shape {
    /// The pure shape query, executable form.
    pub fn is_same(&self, other: &Shape) -> (r: bool)
        ensures
            r == shape_matches(*self, *other),
            r == (*self == *other),
        decreases *self,
    {
        proof {
            lemma_shape_matches_is_equality(*self, *other);
        }
        match (self, other) {
            (Shape::Owned(t), Shape::Owned(u)) => t == u,
            (Shape::SharedRef(t), Shape::SharedRef(u)) => t == u,
            (Shape::ExclusiveRef(t), Shape::ExclusiveRef(u)) => t == u,
            (Shape::PinnedSharedRef(t), Shape::PinnedSharedRef(u)) => t == u,
            (Shape::PinnedExclusiveRef(t), Shape::PinnedExclusiveRef(u)) => t == u,
            (Shape::Optional(x), Shape::Optional(y)) => x.is_same(y),
            (Shape::TwoArm(x1, x2), Shape::TwoArm(y1, y2)) => x1.is_same(y1) && x2.is_same(y2),
            (Shape::TriState(x), Shape::TriState(y)) => x.is_same(y),
            (Shape::Tuple1(x), Shape::Tuple1(y)) => x.is_same(y),
            (Shape::Tuple2(x1, x2), Shape::Tuple2(y1, y2)) => x1.is_same(y1) && x2.is_same(y2),
            (Shape::Tuple3(x1, x2, x3), Shape::Tuple3(y1, y2, y3)) => x1.is_same(y1) && x2.is_same(
                y2,
            ) && x3.is_same(y3),
            _ => false,
        }
    }

    /// A structurally equal copy of this shape.
    pub fn duplicate(&self) -> (r: Shape)
        ensures
            r == *self,
        decreases *self,
    {
        match self {
            Shape::Owned(t) => Shape::Owned(*t),
            Shape::SharedRef(t) => Shape::SharedRef(*t),
            Shape::ExclusiveRef(t) => Shape::ExclusiveRef(*t),
            Shape::PinnedSharedRef(t) => Shape::PinnedSharedRef(*t),
            Shape::PinnedExclusiveRef(t) => Shape::PinnedExclusiveRef(*t),
            Shape::Optional(x) => Shape::Optional(Box::new(x.duplicate())),
            Shape::TwoArm(x1, x2) => Shape::TwoArm(
                Box::new(x1.duplicate()),
                Box::new(x2.duplicate()),
            ),
            Shape::TriState(x) => Shape::TriState(Box::new(x.duplicate())),
            Shape::Tuple1(x) => Shape::Tuple1(Box::new(x.duplicate())),
            Shape::Tuple2(x1, x2) => Shape::Tuple2(
                Box::new(x1.duplicate()),
                Box::new(x2.duplicate()),
            ),
            Shape::Tuple3(x1, x2, x3) => Shape::Tuple3(
                Box::new(x1.duplicate()),
                Box::new(x2.duplicate()),
                Box::new(x3.duplicate()),
            ),
        }
    }
}

/// Whether `v` conforms to the declared shape `s`, executable form.
pub fn value_fits(v: &ShapedValue, s: &Shape) -> (r: bool)
    ensures
        r == fits(*v, *s),
    decreases *v,
{
    match (v, s) {
        (ShapedValue::Owned(x), Shape::Owned(t)) => x.tag() == *t,
        (ShapedValue::SharedRef(x), Shape::SharedRef(t)) => x.tag() == *t,
        (ShapedValue::ExclusiveRef(x), Shape::ExclusiveRef(t)) => x.tag() == *t,
        (ShapedValue::PinnedSharedRef(x), Shape::PinnedSharedRef(t)) => x.tag() == *t,
        (ShapedValue::PinnedExclusiveRef(x), Shape::PinnedExclusiveRef(t)) => x.tag() == *t,
        (ShapedValue::Absent, Shape::Optional(_)) => true,
        (ShapedValue::Present(inner), Shape::Optional(t)) => value_fits(inner, t),
        (ShapedValue::OkArm(inner), Shape::TwoArm(a, _)) => value_fits(inner, a),
        (ShapedValue::ErrArm(inner), Shape::TwoArm(_, e)) => value_fits(inner, e),
        (ShapedValue::Pending, Shape::TriState(_)) => true,
        (ShapedValue::Ready(inner), Shape::TriState(t)) => value_fits(inner, t),
        (ShapedValue::Tuple1(a), Shape::Tuple1(sa)) => value_fits(a, sa),
        (ShapedValue::Tuple2(a, b), Shape::Tuple2(sa, sb)) => value_fits(a, sa) && value_fits(
            b,
            sb,
        ),
        (ShapedValue::Tuple3(a, b, c), Shape::Tuple3(sa, sb, sc)) => value_fits(a, sa)
            && value_fits(b, sb) && value_fits(c, sc),
        _ => false,
    }
}

/// Whether the structural cast of `v`, declared at `declared`, to `target`
/// succeeds.
///
/// A value casts to its own declared shape unconditionally.  Beyond that:
/// an absent optional casts to any optional target and a pending tri-state
/// to any tri-state target, because they carry no leaf to check; the arm of
/// a two-armed result is checked only against the target's matching arm.
/// Every other pair of shapes — and in particular any mismatch of borrow
/// form or wrapper kind — is a defined no-match.  A successful cast hands
/// the value through unchanged, so a pinned borrow is never re-pinned.
pub open spec fn cast_ok(declared: Shape, v: ShapedValue, target: Shape) -> bool {
    match v {
        ShapedValue::Absent => declared matches Shape::Optional(_) && target matches Shape::Optional(
            _,
        ),
        ShapedValue::Pending => declared matches Shape::TriState(_)
            && target matches Shape::TriState(_),
        ShapedValue::OkArm(_) => declared matches Shape::TwoArm(da, _)
            && target matches Shape::TwoArm(ta, _) && da == ta,
        ShapedValue::ErrArm(_) => declared matches Shape::TwoArm(_, de)
            && target matches Shape::TwoArm(_, te) && de == te,
        _ => declared == target,
    }
}

/// The structural cast: `Some(v)`, unchanged, exactly when `cast_ok` allows
/// it, and `None` otherwise.
pub(crate) fn cast_shaped(v: ShapedValue, declared: &Shape, target: &Shape) -> (r: Option<
    ShapedValue,
>)
    ensures
        r == if cast_ok(*declared, v, *target) {
            Some(v)
        } else {
            None::<ShapedValue>
        },
{
    let ok: bool = match &v {
        ShapedValue::Absent => matches!(declared, Shape::Optional(_)) && matches!(
            target,
            Shape::Optional(_),
        ),
        ShapedValue::Pending => matches!(declared, Shape::TriState(_)) && matches!(
            target,
            Shape::TriState(_),
        ),
        ShapedValue::OkArm(_) => match (declared, target) {
            (Shape::TwoArm(da, _), Shape::TwoArm(ta, _)) => da.is_same(ta),
            _ => false,
        },
        ShapedValue::ErrArm(_) => match (declared, target) {
            (Shape::TwoArm(_, de), Shape::TwoArm(_, te)) => de.is_same(te),
            _ => false,
        },
        _ => declared.is_same(target),
    };
    if ok {
        Some(v)
    } else {
        None
    }
}

/// A cast between equal declared and target shapes always succeeds: once a
/// guard compares shapes for equality, the cast it gates cannot fail.
pub proof fn lemma_cast_same_shape(declared: Shape, v: ShapedValue)
    requires
        fits(v, declared),
    ensures
        cast_ok(declared, v, declared),
{
}

/// Once the pure shape query reports a match, the structural cast of any
/// conforming value is guaranteed to succeed.
pub proof fn lemma_match_implies_cast_succeeds(declared: Shape, v: ShapedValue, target: Shape)
    requires
        fits(v, declared),
        shape_matches(declared, target),
    ensures
        cast_ok(declared, v, target),
{
    lemma_shape_matches_is_equality(declared, target);
    lemma_cast_same_shape(declared, v);
}

/// A shared borrow never satisfies an exclusive-borrow shape and an
/// exclusive borrow never satisfies a shared-borrow shape, even when the
/// leaf types are identical; the cast is likewise a defined no-match.
pub proof fn lemma_borrow_kinds_disjoint(a: TypeTag, b: TypeTag)
    ensures
        !shape_matches(Shape::SharedRef(a), Shape::ExclusiveRef(b)),
        !shape_matches(Shape::ExclusiveRef(a), Shape::SharedRef(b)),
        forall|x: Value|
            !cast_ok(Shape::SharedRef(a), ShapedValue::SharedRef(x), Shape::ExclusiveRef(b)),
        forall|x: Value|
            !cast_ok(Shape::ExclusiveRef(a), ShapedValue::ExclusiveRef(x), Shape::SharedRef(b)),
{
}

/// An absent optional casts to any optional target, whatever the leaf types
/// on either side, and the result is again the absent value: an absent
/// value carries no type to check.
pub proof fn lemma_absent_casts_to_any_optional(declared: Shape, target: Shape)
    requires
        declared matches Shape::Optional(_),
        target matches Shape::Optional(_),
    ensures
        cast_ok(declared, ShapedValue::Absent, target),
{
}

/// The asymmetry's other side: a present optional casts only to its own
/// declared shape, inner leaf type included.
pub proof fn lemma_present_requires_equal_shape(
    declared: Shape,
    inner: ShapedValue,
    target: Shape,
)
    ensures
        cast_ok(declared, ShapedValue::Present(Box::new(inner)), target) <==> declared == target,
{
}

} // verus!
