use vstd::prelude::*;

use crate::dispatch::mapped_candidate;
use crate::dispatch::plain_candidate;
use crate::shape::fits;
use crate::shape::Shape;
use crate::shape::ShapedValue;
use crate::specializer_borrowed::SpecializerBorrowed;
use crate::tag::TypeTag;
use crate::tag::Value;
use crate::transform::transform_applies;
use crate::transform::Transform;

verus! {

/// The dispatch builder over an owned leaf input and a shaped target: the
/// substitution instance of [`SpecializerBorrowed`] whose declared shape is
/// `Owned`.
pub struct SpecializerBorrowedReturn {
    /// The generalized builder this instance substitutes into.
    pub inner: SpecializerBorrowed,
}

impl SpecializerBorrowedReturn {
    /// The builder's invariant.
    pub open spec fn wf(&self) -> bool {
        &&& self.inner.wf()
        &&& self.inner.declared matches Shape::Owned(_)
    }

    /// The value `run` produces.
    pub open spec fn outcome(&self) -> ShapedValue {
        self.inner.outcome()
    }

    /// A new builder with no candidates over the mandatory fallback, whose
    /// input is declared at the type it carries.
    pub fn new(input: Value, target: Shape, fallback: Transform) -> (s: Self)
        requires
            transform_applies(fallback, Shape::Owned(input.tag()), target),
        ensures
            s.inner.input == ShapedValue::Owned(input),
            s.inner.declared == Shape::Owned(input.tag()),
            s.inner.target == target,
            s.inner.fallback == fallback,
            s.inner.chain@ == Seq::<crate::dispatch::Candidate>::empty(),
            s.wf(),
    {
        let declared = Shape::Owned(input.tag());
        SpecializerBorrowedReturn {
            inner: SpecializerBorrowed::new(ShapedValue::Owned(input), declared, target, fallback),
        }
    }

    /// Register a candidate guarded on both the parameter type and the
    /// return shape.
    pub fn specialize(self, param: TypeTag, ret: Shape, f: Transform) -> (s: Self)
        requires
            transform_applies(f, Shape::Owned(param), ret),
        ensures
            s.inner.input == self.inner.input,
            s.inner.declared == self.inner.declared,
            s.inner.target == self.inner.target,
            s.inner.fallback == self.inner.fallback,
            s.inner.chain@ == self.inner.chain@.push(
                plain_candidate(Shape::Owned(param), ret, f),
            ),
            self.wf() ==> s.wf(),
    {
        SpecializerBorrowedReturn { inner: self.inner.specialize(Shape::Owned(param), ret, f) }
    }

    /// Register a candidate with a premap and a postmap.
    pub fn specialize_map(
        self,
        param: TypeTag,
        ret: Shape,
        premap: Transform,
        f: Transform,
        postmap: Transform,
    ) -> (s: Self)
        requires
            transform_applies(premap, Shape::Owned(param), Shape::Owned(param)),
            transform_applies(f, self.inner.declared, self.inner.target),
            transform_applies(postmap, ret, ret),
        ensures
            s.inner.input == self.inner.input,
            s.inner.declared == self.inner.declared,
            s.inner.target == self.inner.target,
            s.inner.fallback == self.inner.fallback,
            s.inner.chain@ == self.inner.chain@.push(
                mapped_candidate(Shape::Owned(param), ret, premap, f, postmap),
            ),
            self.wf() ==> s.wf(),
    {
        SpecializerBorrowedReturn {
            inner: self.inner.specialize_map(Shape::Owned(param), ret, premap, f, postmap),
        }
    }

    /// Register a candidate guarded on the parameter type only.
    pub fn specialize_param(self, param: TypeTag, f: Transform) -> (s: Self)
        requires
            transform_applies(f, Shape::Owned(param), self.inner.target),
        ensures
            s.inner.input == self.inner.input,
            s.inner.declared == self.inner.declared,
            s.inner.target == self.inner.target,
            s.inner.fallback == self.inner.fallback,
            s.inner.chain@ == self.inner.chain@.push(
                plain_candidate(Shape::Owned(param), self.inner.target, f),
            ),
            self.wf() ==> s.wf(),
    {
        SpecializerBorrowedReturn { inner: self.inner.specialize_param(Shape::Owned(param), f) }
    }

    /// Register a candidate guarded on the return shape only.
    pub fn specialize_return(self, ret: Shape, f: Transform) -> (s: Self)
        requires
            transform_applies(f, self.inner.declared, ret),
        ensures
            s.inner.input == self.inner.input,
            s.inner.declared == self.inner.declared,
            s.inner.target == self.inner.target,
            s.inner.fallback == self.inner.fallback,
            s.inner.chain@ == self.inner.chain@.push(
                plain_candidate(self.inner.declared, ret, f),
            ),
            self.wf() ==> s.wf(),
    {
        SpecializerBorrowedReturn { inner: self.inner.specialize_return(ret, f) }
    }

    /// `specialize_map` with the postmap elided.
    pub fn specialize_map_param(self, param: TypeTag, premap: Transform, f: Transform) -> (s:
        Self)
        requires
            transform_applies(premap, Shape::Owned(param), Shape::Owned(param)),
            transform_applies(f, self.inner.declared, self.inner.target),
        ensures
            s.inner.input == self.inner.input,
            s.inner.declared == self.inner.declared,
            s.inner.target == self.inner.target,
            s.inner.fallback == self.inner.fallback,
            s.inner.chain@ == self.inner.chain@.push(
                mapped_candidate(
                    Shape::Owned(param),
                    self.inner.target,
                    premap,
                    f,
                    Transform::Identity,
                ),
            ),
            self.wf() ==> s.wf(),
    {
        SpecializerBorrowedReturn {
            inner: self.inner.specialize_map_param(Shape::Owned(param), premap, f),
        }
    }

    /// `specialize_map` with the premap elided.
    pub fn specialize_map_return(self, ret: Shape, f: Transform, postmap: Transform) -> (s: Self)
        requires
            transform_applies(f, self.inner.declared, self.inner.target),
            transform_applies(postmap, ret, ret),
        ensures
            s.inner.input == self.inner.input,
            s.inner.declared == self.inner.declared,
            s.inner.target == self.inner.target,
            s.inner.fallback == self.inner.fallback,
            s.inner.chain@ == self.inner.chain@.push(
                mapped_candidate(self.inner.declared, ret, Transform::Identity, f, postmap),
            ),
            self.wf() ==> s.wf(),
    {
        SpecializerBorrowedReturn { inner: self.inner.specialize_map_return(ret, f, postmap) }
    }

    /// Run the builder: exactly one candidate or the fallback transforms
    /// the input, and the result is of the target shape.
    pub fn run(self) -> (r: ShapedValue)
        requires
            self.wf(),
        ensures
            r == self.outcome(),
            fits(r, self.inner.target),
    {
        self.inner.run()
    }
}

} // verus!
