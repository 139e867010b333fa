use vstd::prelude::*;

use crate::cast_identity_borrowed::CastIdentityBorrowed;
use crate::shape::Shape;
use crate::tag::TypeTag;
use crate::tag::Value;

verus! {

/// What the owned identity cast returns: the value itself, re-declared at
/// the target type, exactly when the types are identical, and nothing
/// otherwise.  Identical empty leaves satisfy the rule like any others;
/// nothing is accepted by default.
pub open spec fn cast_value(v: Value, target: TypeTag) -> Option<Value> {
    if v.tag() == target {
        Some(v)
    } else {
        None::<Value>
    }
}

/// Attempt to cast an owned value to the target type.
///
/// Succeeds, with the content unchanged, exactly when the value's type is
/// the target type; a mismatch is a soft failure.
pub fn cast_identity(value: Value, target: TypeTag) -> (r: Option<Value>)
    ensures
        r == cast_value(value, target),
{
    if value.tag() == target {
        Some(value)
    } else {
        None
    }
}

/// Attempt to cast a shared borrow to the target type.
///
/// Succeeds, lending the very same value, exactly when its type is the
/// target type.
pub fn cast_identity_ref(value: &Value, target: TypeTag) -> (r: Option<&Value>)
    ensures
        r == if value.tag() == target {
            Some(value)
        } else {
            None::<&Value>
        },
{
    if value.tag() == target {
        Some(value)
    } else {
        None
    }
}

/// Attempt to cast an exclusive borrow to the target type.
///
/// Succeeds exactly when the borrowed value's type is the target type; on
/// success the returned borrow is the given one, so writes through it land
/// in the original place, and on failure the original value is untouched.
pub fn cast_identity_mut(value: &mut Value, target: TypeTag) -> (r: Option<&mut Value>)
    ensures
        old(value).tag() == target ==> (r matches Some(m) && *m == *old(value) && *final(value)
            == *final(m)),
        old(value).tag() != target ==> (r matches None && *final(value) == *old(value)),
{
    if value.tag() == target {
        Some(value)
    } else {
        None
    }
}

/// Attempt to cast a shaped value to the target shape.
///
/// The cast is gated on the pure shape query: it succeeds exactly when the
/// query reports a match and the type's own cast accepts the value.
pub fn cast_identity_borrowed<T: CastIdentityBorrowed>(
    value: T,
    declared: &Shape,
    target: &Shape,
) -> (r: Option<T>)
    requires
        value.conforms(*declared),
    ensures
        r == if T::same_spec(*declared, *target) && value.cast_allowed(*declared, *target) {
            Some(value.cast_result(*declared, *target))
        } else {
            None::<T>
        },
{
    if T::is_same(declared, target) {
        value.cast_identity(declared, target)
    } else {
        None
    }
}

/// Casting a value to its own type always succeeds and returns
/// content-equal output.
pub proof fn lemma_identity_roundtrip(v: Value)
    ensures
        cast_value(v, v.tag()) == Some(v),
{
}

} // verus!
