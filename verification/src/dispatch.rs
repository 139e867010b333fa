use vstd::prelude::*;

use crate::shape::fits;
use crate::shape::Shape;
use crate::shape::ShapedValue;
use crate::transform::transform_applies;
use crate::transform::transform_apply;
use crate::transform::Transform;

verus! {

/// One guarded candidate of a dispatch chain: a parameter shape, a return
/// shape, and a transformation bracketed by a premap and a postmap.
///
/// A plain candidate uses the identity on both sides; the mapped forms run
/// the premap on the cast input just before the core transformation and the
/// postmap on its result just after.
pub struct Candidate {
    /// The shape the input must be declared at for the guard to pass.
    pub param: Shape,
    /// The shape the builder's target must equal for the guard to pass.
    pub ret: Shape,
    /// Runs on the input, within the parameter shape, when the guard passes.
    pub pre: Transform,
    /// The core transformation, from the declared shape to the target.
    pub core: Transform,
    /// Runs on the result, within the return shape, when the guard passes.
    pub post: Transform,
}

/// A candidate with no premap and no postmap.
pub open spec fn plain_candidate(param: Shape, ret: Shape, f: Transform) -> Candidate {
    Candidate { param, ret, pre: Transform::Identity, core: f, post: Transform::Identity }
}

/// A candidate with a premap and a postmap.
pub open spec fn mapped_candidate(
    param: Shape,
    ret: Shape,
    pre: Transform,
    core: Transform,
    post: Transform,
) -> Candidate {
    Candidate { param, ret, pre, core, post }
}

/// Whether a candidate's guard passes for the given declared input shape
/// and target shape.
pub open spec fn guard_passes(c: Candidate, declared: Shape, target: Shape) -> bool {
    c.param == declared && c.ret == target
}

/// A candidate is well formed for a builder when, should its guard pass,
/// its three transformations are typed as the chain's evaluation uses them.
pub open spec fn candidate_wf(c: Candidate, declared: Shape, target: Shape) -> bool {
    guard_passes(c, declared, target) ==> {
        &&& transform_applies(c.pre, c.param, c.param)
        &&& transform_applies(c.core, c.param, c.ret)
        &&& transform_applies(c.post, c.ret, c.ret)
    }
}

/// Every candidate of the chain is well formed.
pub open spec fn chain_wf(chain: Seq<Candidate>, declared: Shape, target: Shape) -> bool {
    forall|i: int| 0 <= i < chain.len() ==> candidate_wf(#[trigger] chain[i], declared, target)
}

/// The dispatch algorithm: the chain is evaluated most-recently-added
/// first, and the first candidate whose guard passes transforms the input;
/// with no passing candidate the mandatory fallback does.  Exactly one
/// transformation of the input is ever taken, so no unmatched candidate is
/// ever invoked.
pub open spec fn dispatch(
    chain: Seq<Candidate>,
    fallback: Transform,
    declared: Shape,
    target: Shape,
    v: ShapedValue,
) -> ShapedValue
    decreases chain.len(),
{
    if chain.len() == 0 {
        transform_apply(fallback, v)
    } else {
        let c = chain.last();
        if guard_passes(c, declared, target) {
            transform_apply(c.post, transform_apply(c.core, transform_apply(c.pre, v)))
        } else {
            dispatch(chain.drop_last(), fallback, declared, target, v)
        }
    }
}

/// Dispatch is shape-sound: on a well-formed chain over a conforming input,
/// the result conforms to the target shape.
pub proof fn lemma_dispatch_fits(
    chain: Seq<Candidate>,
    fallback: Transform,
    declared: Shape,
    target: Shape,
    v: ShapedValue,
)
    requires
        fits(v, declared),
        transform_applies(fallback, declared, target),
        chain_wf(chain, declared, target),
    ensures
        fits(dispatch(chain, fallback, declared, target, v), target),
    decreases chain.len(),
{
    if chain.len() == 0 {
        crate::transform::lemma_apply_fits(fallback, declared, target, v);
    } else {
        let c = chain.last();
        if guard_passes(c, declared, target) {
            assert(candidate_wf(c, declared, target));
            let v1 = transform_apply(c.pre, v);
            crate::transform::lemma_apply_fits(c.pre, declared, declared, v);
            let v2 = transform_apply(c.core, v1);
            crate::transform::lemma_apply_fits(c.core, declared, target, v1);
            crate::transform::lemma_apply_fits(c.post, target, target, v2);
        } else {
            assert(chain_wf(chain.drop_last(), declared, target));
            lemma_dispatch_fits(chain.drop_last(), fallback, declared, target, v);
        }
    }
}

/// With only the fallback registered, dispatch on any input yields exactly
/// the fallback's image of that input.
pub proof fn lemma_fallback_only(
    fallback: Transform,
    declared: Shape,
    target: Shape,
    v: ShapedValue,
)
    ensures
        dispatch(Seq::<Candidate>::empty(), fallback, declared, target, v) == transform_apply(
            fallback,
            v,
        ),
{
}

/// A candidate registered last whose parameter shape equals the input's
/// declared shape and whose return shape equals the target is the one
/// selected: the input reaches its transformations unchanged by the guard's
/// casts, and its core runs exactly once.
pub proof fn lemma_exact_match_runs_candidate(
    chain: Seq<Candidate>,
    fallback: Transform,
    declared: Shape,
    target: Shape,
    c: Candidate,
    v: ShapedValue,
)
    requires
        guard_passes(c, declared, target),
    ensures
        dispatch(chain.push(c), fallback, declared, target, v) == transform_apply(
            c.post,
            transform_apply(c.core, transform_apply(c.pre, v)),
        ),
{
    assert(chain.push(c).last() == c);
}

/// Of two candidates whose guards both pass, the one registered later wins,
/// whatever the chain beneath them held.
pub proof fn lemma_last_added_wins(
    chain: Seq<Candidate>,
    fallback: Transform,
    declared: Shape,
    target: Shape,
    c1: Candidate,
    c2: Candidate,
    v: ShapedValue,
)
    requires
        guard_passes(c1, declared, target),
        guard_passes(c2, declared, target),
    ensures
        dispatch(chain.push(c1).push(c2), fallback, declared, target, v) == transform_apply(
            c2.post,
            transform_apply(c2.core, transform_apply(c2.pre, v)),
        ),
{
    lemma_exact_match_runs_candidate(chain.push(c1), fallback, declared, target, c2, v);
}

/// The index of the selected guard: the last pair whose parameter shape
/// equals `declared` and whose return shape equals `target`, if any.
///
/// This is the decision step of the dispatch algorithm on its own, for a
/// host that performs the selected transformation itself — for instance one
/// whose candidates suspend.
pub fn select_candidate(guards: &Vec<(Shape, Shape)>, declared: &Shape, target: &Shape) -> (r:
    Option<usize>)
    ensures
        match r {
            Some(i) => {
                &&& i < guards@.len()
                &&& guards@[i as int].0 == *declared
                &&& guards@[i as int].1 == *target
                &&& forall|j: int|
                    i < j < guards@.len() ==> !((#[trigger] guards@[j]).0 == *declared
                        && guards@[j].1 == *target)
            },
            None => forall|j: int|
                0 <= j < guards@.len() ==> !((#[trigger] guards@[j]).0 == *declared
                    && guards@[j].1 == *target),
        },
{
    let n: usize = guards.len();
    let mut i: usize = n;
    while i > 0
        invariant
            i <= n,
            n == guards@.len(),
            forall|j: int|
                i <= j < guards@.len() ==> !((#[trigger] guards@[j]).0 == *declared
                    && guards@[j].1 == *target),
        decreases i,
    {
        i = i - 1;
        let pair = &guards[i];
        if pair.0.is_same(declared) && pair.1.is_same(target) {
            return Some(i);
        }
    }
    None
}

} // verus!
