use vstd::prelude::*;
use vstd::pervasive::unreached;

use crate::dispatch::mapped_candidate;
use crate::dispatch::plain_candidate;
use crate::shape::Shape;
use crate::shape::ShapedValue;
use crate::specializer_borrowed::SpecializerBorrowed;
use crate::tag::TypeTag;
use crate::tag::Value;
use crate::transform::transform_applies;
use crate::transform::Transform;

verus! {

/// The dispatch builder over an owned leaf input and an owned leaf target:
/// the substitution instance of [`SpecializerBorrowed`] whose declared and
/// target shapes are both `Owned`.
pub struct Specializer {
    /// The generalized builder this instance substitutes into.
    pub inner: SpecializerBorrowed,
}

impl Specializer {
    /// The builder's invariant.
    pub open spec fn wf(&self) -> bool {
        &&& self.inner.wf()
        &&& self.inner.declared matches Shape::Owned(_)
        &&& self.inner.target matches Shape::Owned(_)
    }

    /// The value `run` produces, as a shaped value.
    pub open spec fn outcome(&self) -> ShapedValue {
        self.inner.outcome()
    }

    /// A new builder with no candidates over the mandatory fallback, whose
    /// input is declared at the type it carries.
    pub fn new(input: Value, target: TypeTag, fallback: Transform) -> (s: Self)
        requires
            transform_applies(fallback, Shape::Owned(input.tag()), Shape::Owned(target)),
        ensures
            s.inner.input == ShapedValue::Owned(input),
            s.inner.declared == Shape::Owned(input.tag()),
            s.inner.target == Shape::Owned(target),
            s.inner.fallback == fallback,
            s.inner.chain@ == Seq::<crate::dispatch::Candidate>::empty(),
            s.wf(),
    {
        let declared = Shape::Owned(input.tag());
        Specializer {
            inner: SpecializerBorrowed::new(
                ShapedValue::Owned(input),
                declared,
                Shape::Owned(target),
                fallback,
            ),
        }
    }

    /// Register a candidate guarded on both the parameter type and the
    /// return type.
    pub fn specialize(self, param: TypeTag, ret: TypeTag, f: Transform) -> (s: Self)
        requires
            transform_applies(f, Shape::Owned(param), Shape::Owned(ret)),
        ensures
            s.inner.input == self.inner.input,
            s.inner.declared == self.inner.declared,
            s.inner.target == self.inner.target,
            s.inner.fallback == self.inner.fallback,
            s.inner.chain@ == self.inner.chain@.push(
                plain_candidate(Shape::Owned(param), Shape::Owned(ret), f),
            ),
            self.wf() ==> s.wf(),
    {
        Specializer { inner: self.inner.specialize(Shape::Owned(param), Shape::Owned(ret), f) }
    }

    /// Register a candidate with a premap and a postmap.
    pub fn specialize_map(
        self,
        param: TypeTag,
        ret: TypeTag,
        premap: Transform,
        f: Transform,
        postmap: Transform,
    ) -> (s: Self)
        requires
            transform_applies(premap, Shape::Owned(param), Shape::Owned(param)),
            transform_applies(f, self.inner.declared, self.inner.target),
            transform_applies(postmap, Shape::Owned(ret), Shape::Owned(ret)),
        ensures
            s.inner.input == self.inner.input,
            s.inner.declared == self.inner.declared,
            s.inner.target == self.inner.target,
            s.inner.fallback == self.inner.fallback,
            s.inner.chain@ == self.inner.chain@.push(
                mapped_candidate(Shape::Owned(param), Shape::Owned(ret), premap, f, postmap),
            ),
            self.wf() ==> s.wf(),
    {
        Specializer {
            inner: self.inner.specialize_map(
                Shape::Owned(param),
                Shape::Owned(ret),
                premap,
                f,
                postmap,
            ),
        }
    }

    /// Register a candidate guarded on the parameter type only.
    pub fn specialize_param(self, param: TypeTag, f: Transform) -> (s: Self)
        requires
            transform_applies(f, Shape::Owned(param), self.inner.target),
        ensures
            s.inner.input == self.inner.input,
            s.inner.declared == self.inner.declared,
            s.inner.target == self.inner.target,
            s.inner.fallback == self.inner.fallback,
            s.inner.chain@ == self.inner.chain@.push(
                plain_candidate(Shape::Owned(param), self.inner.target, f),
            ),
            self.wf() ==> s.wf(),
    {
        Specializer { inner: self.inner.specialize_param(Shape::Owned(param), f) }
    }

    /// Register a candidate guarded on the return type only.
    pub fn specialize_return(self, ret: TypeTag, f: Transform) -> (s: Self)
        requires
            transform_applies(f, self.inner.declared, Shape::Owned(ret)),
        ensures
            s.inner.input == self.inner.input,
            s.inner.declared == self.inner.declared,
            s.inner.target == self.inner.target,
            s.inner.fallback == self.inner.fallback,
            s.inner.chain@ == self.inner.chain@.push(
                plain_candidate(self.inner.declared, Shape::Owned(ret), f),
            ),
            self.wf() ==> s.wf(),
    {
        Specializer { inner: self.inner.specialize_return(Shape::Owned(ret), f) }
    }

    /// `specialize_map` with the postmap elided.
    pub fn specialize_map_param(self, param: TypeTag, premap: Transform, f: Transform) -> (s:
        Self)
        requires
            transform_applies(premap, Shape::Owned(param), Shape::Owned(param)),
            transform_applies(f, self.inner.declared, self.inner.target),
        ensures
            s.inner.input == self.inner.input,
            s.inner.declared == self.inner.declared,
            s.inner.target == self.inner.target,
            s.inner.fallback == self.inner.fallback,
            s.inner.chain@ == self.inner.chain@.push(
                mapped_candidate(
                    Shape::Owned(param),
                    self.inner.target,
                    premap,
                    f,
                    Transform::Identity,
                ),
            ),
            self.wf() ==> s.wf(),
    {
        Specializer { inner: self.inner.specialize_map_param(Shape::Owned(param), premap, f) }
    }

    /// `specialize_map` with the premap elided.
    pub fn specialize_map_return(self, ret: TypeTag, f: Transform, postmap: Transform) -> (s:
        Self)
        requires
            transform_applies(f, self.inner.declared, self.inner.target),
            transform_applies(postmap, Shape::Owned(ret), Shape::Owned(ret)),
        ensures
            s.inner.input == self.inner.input,
            s.inner.declared == self.inner.declared,
            s.inner.target == self.inner.target,
            s.inner.fallback == self.inner.fallback,
            s.inner.chain@ == self.inner.chain@.push(
                mapped_candidate(
                    self.inner.declared,
                    Shape::Owned(ret),
                    Transform::Identity,
                    f,
                    postmap,
                ),
            ),
            self.wf() ==> s.wf(),
    {
        Specializer { inner: self.inner.specialize_map_return(Shape::Owned(ret), f, postmap) }
    }

    /// Run the builder: exactly one candidate or the fallback transforms
    /// the input, and the owned result is of the target type.
    pub fn run(self) -> (r: Value)
        requires
            self.wf(),
        ensures
            ShapedValue::Owned(r) == self.outcome(),
            Shape::Owned(r.tag()) == self.inner.target,
    {
        let out = self.inner.run();
        match out {
            ShapedValue::Owned(x) => x,
            _ => unreached(),
        }
    }
}

} // verus!
