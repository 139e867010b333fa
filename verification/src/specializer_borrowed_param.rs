use vstd::prelude::*;
use vstd::pervasive::unreached;

use crate::dispatch::mapped_candidate;
use crate::dispatch::plain_candidate;
use crate::shape::fits;
use crate::shape::Shape;
use crate::shape::ShapedValue;
use crate::specializer_borrowed::SpecializerBorrowed;
use crate::tag::TypeTag;
use crate::tag::Value;
use crate::transform::transform_applies;
use crate::transform::Transform;

verus! {

/// The dispatch builder over a shaped input and an owned leaf target: the
/// substitution instance of [`SpecializerBorrowed`] whose target shape is
/// `Owned`.
pub struct SpecializerBorrowedParam {
    /// The generalized builder this instance substitutes into.
    pub inner: SpecializerBorrowed,
}

impl SpecializerBorrowedParam {
    /// The builder's invariant.
    pub open spec fn wf(&self) -> bool {
        &&& self.inner.wf()
        &&& self.inner.target matches Shape::Owned(_)
    }

    /// The value `run` produces, as a shaped value.
    pub open spec fn outcome(&self) -> ShapedValue {
        self.inner.outcome()
    }

    /// A new builder with no candidates over the mandatory fallback.
    pub fn new(input: ShapedValue, declared: Shape, target: TypeTag, fallback: Transform) -> (s:
        Self)
        requires
            fits(input, declared),
            transform_applies(fallback, declared, Shape::Owned(target)),
        ensures
            s.inner.input == input,
            s.inner.declared == declared,
            s.inner.target == Shape::Owned(target),
            s.inner.fallback == fallback,
            s.inner.chain@ == Seq::<crate::dispatch::Candidate>::empty(),
            s.wf(),
    {
        SpecializerBorrowedParam {
            inner: SpecializerBorrowed::new(input, declared, Shape::Owned(target), fallback),
        }
    }

    /// Register a candidate guarded on both the parameter shape and the
    /// return type.
    pub fn specialize(self, param: Shape, ret: TypeTag, f: Transform) -> (s: Self)
        requires
            transform_applies(f, param, Shape::Owned(ret)),
        ensures
            s.inner.input == self.inner.input,
            s.inner.declared == self.inner.declared,
            s.inner.target == self.inner.target,
            s.inner.fallback == self.inner.fallback,
            s.inner.chain@ == self.inner.chain@.push(
                plain_candidate(param, Shape::Owned(ret), f),
            ),
            self.wf() ==> s.wf(),
    {
        SpecializerBorrowedParam { inner: self.inner.specialize(param, Shape::Owned(ret), f) }
    }

    /// Register a candidate with a premap and a postmap.
    pub fn specialize_map(
        self,
        param: Shape,
        ret: TypeTag,
        premap: Transform,
        f: Transform,
        postmap: Transform,
    ) -> (s: Self)
        requires
            transform_applies(premap, param, param),
            transform_applies(f, self.inner.declared, self.inner.target),
            transform_applies(postmap, Shape::Owned(ret), Shape::Owned(ret)),
        ensures
            s.inner.input == self.inner.input,
            s.inner.declared == self.inner.declared,
            s.inner.target == self.inner.target,
            s.inner.fallback == self.inner.fallback,
            s.inner.chain@ == self.inner.chain@.push(
                mapped_candidate(param, Shape::Owned(ret), premap, f, postmap),
            ),
            self.wf() ==> s.wf(),
    {
        SpecializerBorrowedParam {
            inner: self.inner.specialize_map(param, Shape::Owned(ret), premap, f, postmap),
        }
    }

    /// Register a candidate guarded on the parameter shape only.
    pub fn specialize_param(self, param: Shape, f: Transform) -> (s: Self)
        requires
            transform_applies(f, param, self.inner.target),
        ensures
            s.inner.input == self.inner.input,
            s.inner.declared == self.inner.declared,
            s.inner.target == self.inner.target,
            s.inner.fallback == self.inner.fallback,
            s.inner.chain@ == self.inner.chain@.push(
                plain_candidate(param, self.inner.target, f),
            ),
            self.wf() ==> s.wf(),
    {
        SpecializerBorrowedParam { inner: self.inner.specialize_param(param, f) }
    }

    /// Register a candidate guarded on the return type only.
    pub fn specialize_return(self, ret: TypeTag, f: Transform) -> (s: Self)
        requires
            transform_applies(f, self.inner.declared, Shape::Owned(ret)),
        ensures
            s.inner.input == self.inner.input,
            s.inner.declared == self.inner.declared,
            s.inner.target == self.inner.target,
            s.inner.fallback == self.inner.fallback,
            s.inner.chain@ == self.inner.chain@.push(
                plain_candidate(self.inner.declared, Shape::Owned(ret), f),
            ),
            self.wf() ==> s.wf(),
    {
        SpecializerBorrowedParam { inner: self.inner.specialize_return(Shape::Owned(ret), f) }
    }

    /// `specialize_map` with the postmap elided.
    pub fn specialize_map_param(self, param: Shape, premap: Transform, f: Transform) -> (s: Self)
        requires
            transform_applies(premap, param, param),
            transform_applies(f, self.inner.declared, self.inner.target),
        ensures
            s.inner.input == self.inner.input,
            s.inner.declared == self.inner.declared,
            s.inner.target == self.inner.target,
            s.inner.fallback == self.inner.fallback,
            s.inner.chain@ == self.inner.chain@.push(
                mapped_candidate(param, self.inner.target, premap, f, Transform::Identity),
            ),
            self.wf() ==> s.wf(),
    {
        SpecializerBorrowedParam { inner: self.inner.specialize_map_param(param, premap, f) }
    }

    /// `specialize_map` with the premap elided.
    pub fn specialize_map_return(self, ret: TypeTag, f: Transform, postmap: Transform) -> (s:
        Self)
        requires
            transform_applies(f, self.inner.declared, self.inner.target),
            transform_applies(postmap, Shape::Owned(ret), Shape::Owned(ret)),
        ensures
            s.inner.input == self.inner.input,
            s.inner.declared == self.inner.declared,
            s.inner.target == self.inner.target,
            s.inner.fallback == self.inner.fallback,
            s.inner.chain@ == self.inner.chain@.push(
                mapped_candidate(
                    self.inner.declared,
                    Shape::Owned(ret),
                    Transform::Identity,
                    f,
                    postmap,
                ),
            ),
            self.wf() ==> s.wf(),
    {
        SpecializerBorrowedParam {
            inner: self.inner.specialize_map_return(Shape::Owned(ret), f, postmap),
        }
    }

    /// Run the builder: exactly one candidate or the fallback transforms
    /// the input, and the owned result is of the target type.
    pub fn run(self) -> (r: Value)
        requires
            self.wf(),
        ensures
            ShapedValue::Owned(r) == self.outcome(),
            Shape::Owned(r.tag()) == self.inner.target,
    {
        let out = self.inner.run();
        match out {
            ShapedValue::Owned(x) => x,
            _ => unreached(),
        }
    }
}

} // verus!
