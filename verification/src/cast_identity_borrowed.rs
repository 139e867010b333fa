use vstd::prelude::*;

use crate::shape::cast_ok;
use crate::shape::cast_shaped;
use crate::shape::fits;
use crate::shape::shape_matches;
use crate::shape::Shape;
use crate::shape::ShapedValue;

verus! {

/// Identity cast on a value declared at a shape.
///
/// The extension point of the cast machinery: a structural type opts in by
/// implementing the pure shape query and the cast in terms of its own
/// substructure, and [`crate::cast_identity_borrowed`] then sees through
/// it.  The query is value-independent; the cast may accept more than the
/// query on values that carry no leaf type to check.
pub trait CastIdentityBorrowed: Sized {
    /// Whether this value is a well-formed inhabitant of `shape`.
    spec fn conforms(self, shape: Shape) -> bool;

    /// The pure, value-independent shape query.
    spec fn same_spec(declared: Shape, target: Shape) -> bool;

    /// Whether the cast of this value from `declared` to `target` succeeds.
    spec fn cast_allowed(self, declared: Shape, target: Shape) -> bool;

    /// The value the cast hands back on success.
    spec fn cast_result(self, declared: Shape, target: Shape) -> Self;

    /// The pure shape query, executable form.
    fn is_same(declared: &Shape, target: &Shape) -> (r: bool)
        ensures
            r == Self::same_spec(*declared, *target),
    ;

    /// Attempt to cast `self`, declared at `declared`, to `target`.
    fn cast_identity(self, declared: &Shape, target: &Shape) -> (r: Option<Self>)
        requires
            self.conforms(*declared),
        ensures
            r == if self.cast_allowed(*declared, *target) {
                Some(self.cast_result(*declared, *target))
            } else {
                None::<Self>
            },
    ;
}

impl CastIdentityBorrowed for ShapedValue {
    open spec fn conforms(self, shape: Shape) -> bool {
        fits(self, shape)
    }

    open spec fn same_spec(declared: Shape, target: Shape) -> bool {
        shape_matches(declared, target)
    }

    open spec fn cast_allowed(self, declared: Shape, target: Shape) -> bool {
        cast_ok(declared, self, target)
    }

    open spec fn cast_result(self, declared: Shape, target: Shape) -> Self {
        self
    }

    fn is_same(declared: &Shape, target: &Shape) -> (r: bool) {
        declared.is_same(target)
    }

    fn cast_identity(self, declared: &Shape, target: &Shape) -> (r: Option<Self>) {
        cast_shaped(self, declared, target)
    }
}

} // verus!
