use vstd::prelude::*;
use vstd::pervasive::unreached;

use crate::dispatch::candidate_wf;
use crate::dispatch::chain_wf;
use crate::dispatch::dispatch;
use crate::dispatch::guard_passes;
use crate::dispatch::lemma_dispatch_fits;
use crate::dispatch::mapped_candidate;
use crate::dispatch::plain_candidate;
use crate::dispatch::Candidate;
use crate::shape::cast_shaped;
use crate::shape::fits;
use crate::shape::lemma_cast_same_shape;
use crate::shape::Shape;
use crate::shape::ShapedValue;
use crate::transform::apply_transform;
use crate::transform::lemma_apply_fits;
use crate::transform::transform_applies;
use crate::transform::transform_apply;
use crate::transform::Transform;

verus! {

/// The dispatch builder over shaped input and shaped target: it owns the
/// input value, the shape the input is declared at, the target shape, the
/// ordered candidate chain, and the mandatory fallback.
///
/// Every `specialize` form consumes the builder and returns it grown by one
/// candidate; `run` consumes it for good and produces exactly one result.
/// The other builders are substitution instances of this one with a plain
/// leaf at the input or the output.
pub struct SpecializerBorrowed {
    /// The input value, consumed by `run`.
    pub input: ShapedValue,
    /// The shape the input is declared at.
    pub declared: Shape,
    /// The shape the result must have.
    pub target: Shape,
    /// The mandatory default transformation.
    pub fallback: Transform,
    /// The candidate chain, in order of registration.
    pub chain: Vec<Candidate>,
}

impl SpecializerBorrowed {
    /// The builder's invariant: the input conforms to its declared shape,
    /// the fallback carries the declared shape to the target, and every
    /// candidate is well formed.
    pub open spec fn wf(&self) -> bool {
        &&& fits(self.input, self.declared)
        &&& transform_applies(self.fallback, self.declared, self.target)
        &&& chain_wf(self.chain@, self.declared, self.target)
    }

    /// The value `run` produces.
    pub open spec fn outcome(&self) -> ShapedValue {
        dispatch(self.chain@, self.fallback, self.declared, self.target, self.input)
    }

    /// A new builder with no candidates over the mandatory fallback.
    pub fn new(input: ShapedValue, declared: Shape, target: Shape, fallback: Transform) -> (s:
        Self)
        requires
            fits(input, declared),
            transform_applies(fallback, declared, target),
        ensures
            s.input == input,
            s.declared == declared,
            s.target == target,
            s.fallback == fallback,
            s.chain@ == Seq::<Candidate>::empty(),
            s.wf(),
    {
        let s = SpecializerBorrowed { input, declared, target, fallback, chain: Vec::new() };
        proof {
            assert(s.chain@ =~= Seq::<Candidate>::empty());
        }
        s
    }

    /// Register a candidate guarded on both the parameter shape and the
    /// return shape.
    pub fn specialize(self, param: Shape, ret: Shape, f: Transform) -> (s: Self)
        requires
            transform_applies(f, param, ret),
        ensures
            s.input == self.input,
            s.declared == self.declared,
            s.target == self.target,
            s.fallback == self.fallback,
            s.chain@ == self.chain@.push(plain_candidate(param, ret, f)),
            self.wf() ==> s.wf(),
    {
        let mut s = self;
        s.chain.push(
            Candidate {
                param,
                ret,
                pre: Transform::Identity,
                core: f,
                post: Transform::Identity,
            },
        );
        s
    }

    /// Register a candidate with a premap and a postmap: when the guard
    /// passes, the premap reworks the cast input within the parameter
    /// shape, the core transformation carries the declared shape to the
    /// target, and the postmap reworks the result within the return shape.
    pub fn specialize_map(
        self,
        param: Shape,
        ret: Shape,
        premap: Transform,
        f: Transform,
        postmap: Transform,
    ) -> (s: Self)
        requires
            transform_applies(premap, param, param),
            transform_applies(f, self.declared, self.target),
            transform_applies(postmap, ret, ret),
        ensures
            s.input == self.input,
            s.declared == self.declared,
            s.target == self.target,
            s.fallback == self.fallback,
            s.chain@ == self.chain@.push(mapped_candidate(param, ret, premap, f, postmap)),
            self.wf() ==> s.wf(),
    {
        let mut s = self;
        s.chain.push(Candidate { param, ret, pre: premap, core: f, post: postmap });
        s
    }

    /// Register a candidate guarded on the parameter shape only: the
    /// return-shape check is elided, the candidate already producing the
    /// target.
    pub fn specialize_param(self, param: Shape, f: Transform) -> (s: Self)
        requires
            transform_applies(f, param, self.target),
        ensures
            s.input == self.input,
            s.declared == self.declared,
            s.target == self.target,
            s.fallback == self.fallback,
            s.chain@ == self.chain@.push(plain_candidate(param, self.target, f)),
            self.wf() ==> s.wf(),
    {
        let ret = self.target.duplicate();
        self.specialize(param, ret, f)
    }

    /// Register a candidate guarded on the return shape only: the
    /// parameter-shape check is elided, the candidate already accepting the
    /// declared input.
    pub fn specialize_return(self, ret: Shape, f: Transform) -> (s: Self)
        requires
            transform_applies(f, self.declared, ret),
        ensures
            s.input == self.input,
            s.declared == self.declared,
            s.target == self.target,
            s.fallback == self.fallback,
            s.chain@ == self.chain@.push(plain_candidate(self.declared, ret, f)),
            self.wf() ==> s.wf(),
    {
        let param = self.declared.duplicate();
        self.specialize(param, ret, f)
    }

    /// `specialize_map` with the postmap elided.
    pub fn specialize_map_param(self, param: Shape, premap: Transform, f: Transform) -> (s: Self)
        requires
            transform_applies(premap, param, param),
            transform_applies(f, self.declared, self.target),
        ensures
            s.input == self.input,
            s.declared == self.declared,
            s.target == self.target,
            s.fallback == self.fallback,
            s.chain@ == self.chain@.push(
                mapped_candidate(param, self.target, premap, f, Transform::Identity),
            ),
            self.wf() ==> s.wf(),
    {
        let ret = self.target.duplicate();
        self.specialize_map(param, ret, premap, f, Transform::Identity)
    }

    /// `specialize_map` with the premap elided.
    pub fn specialize_map_return(self, ret: Shape, f: Transform, postmap: Transform) -> (s: Self)
        requires
            transform_applies(f, self.declared, self.target),
            transform_applies(postmap, ret, ret),
        ensures
            s.input == self.input,
            s.declared == self.declared,
            s.target == self.target,
            s.fallback == self.fallback,
            s.chain@ == self.chain@.push(
                mapped_candidate(self.declared, ret, Transform::Identity, f, postmap),
            ),
            self.wf() ==> s.wf(),
    {
        let param = self.declared.duplicate();
        self.specialize_map(param, ret, Transform::Identity, f, postmap)
    }

    /// Run the builder: evaluate the chain most-recently-added first and
    /// produce exactly one result, of the target shape.
    ///
    /// Once a guard passes, the casts it gates are proven to succeed, so a
    /// failed cast after a positive guard cannot arise here.
    pub fn run(self) -> (r: ShapedValue)
        requires
            self.wf(),
        ensures
            r == self.outcome(),
            fits(r, self.target),
    {
        proof {
            lemma_dispatch_fits(
                self.chain@,
                self.fallback,
                self.declared,
                self.target,
                self.input,
            );
        }
        let ghost outcome = self.outcome();
        let SpecializerBorrowed { input, declared, target, fallback, mut chain } = self;
        #[verifier::loop_isolation(false)]
        while chain.len() > 0
            invariant
                fits(input, declared),
                transform_applies(fallback, declared, target),
                chain_wf(chain@, declared, target),
                dispatch(chain@, fallback, declared, target, input) == outcome,
            decreases chain.len(),
        {
            let ghost old_chain = chain@;
            proof {
                assert(candidate_wf(old_chain[old_chain.len() - 1], declared, target));
            }
            let c = chain.pop().unwrap();
            proof {
                assert(c == old_chain.last());
                assert(chain@ =~= old_chain.drop_last());
            }
            let guard = declared.is_same(&c.param) && c.ret.is_same(&target);
            if guard {
                proof {
                    assert(guard_passes(c, declared, target));
                    assert(dispatch(old_chain, fallback, declared, target, input)
                        == transform_apply(
                        c.post,
                        transform_apply(c.core, transform_apply(c.pre, input)),
                    ));
                    lemma_cast_same_shape(declared, input);
                }
                let v1 = match cast_shaped(input, &declared, &c.param) {
                    Some(x) => x,
                    None => unreached(),
                };
                proof {
                    lemma_apply_fits(c.pre, declared, declared, v1);
                }
                let v2 = apply_transform(c.pre, v1);
                proof {
                    lemma_cast_same_shape(declared, v2);
                }
                let v3 = match cast_shaped(v2, &c.param, &declared) {
                    Some(x) => x,
                    None => unreached(),
                };
                proof {
                    lemma_apply_fits(c.core, declared, target, v3);
                }
                let v4 = apply_transform(c.core, v3);
                proof {
                    lemma_cast_same_shape(target, v4);
                }
                let v5 = match cast_shaped(v4, &target, &c.ret) {
                    Some(x) => x,
                    None => unreached(),
                };
                proof {
                    lemma_apply_fits(c.post, target, target, v5);
                }
                let v6 = apply_transform(c.post, v5);
                proof {
                    lemma_cast_same_shape(target, v6);
                }
                let v7 = match cast_shaped(v6, &c.ret, &target) {
                    Some(x) => x,
                    None => unreached(),
                };
                return v7;
            }
        }
        apply_transform(fallback, input)
    }
}

} // verus!
