//! Type-directed dispatch on a sealed family of leaf types.
//!
//! A value carries an identifier of the concrete type it is bound to, and a
//! checked cast succeeds exactly when two such identifiers are equal.  Casts
//! extend across ownership shapes (owned, shared borrow, exclusive borrow,
//! pinned borrows) and structural wrappers (optional, two-armed result,
//! tri-state, small tuples).  A builder accumulates an ordered chain of
//! guarded candidate transformations over a mandatory fallback; running it
//! evaluates the chain most-recently-added first and invokes exactly one
//! transformation.

mod api;
mod cast_identity_borrowed;
mod dispatch;
mod shape;
mod specializer;
mod specializer_borrowed;
mod specializer_borrowed_param;
mod specializer_borrowed_return;
mod tag;
mod transform;

pub use api::cast_identity;
pub use api::cast_identity_borrowed;
pub use api::cast_identity_mut;
pub use api::cast_identity_ref;
pub use api::cast_value;
pub use api::lemma_identity_roundtrip;
pub use cast_identity_borrowed::CastIdentityBorrowed;
pub use dispatch::candidate_wf;
pub use dispatch::chain_wf;
pub use dispatch::dispatch;
pub use dispatch::guard_passes;
pub use dispatch::lemma_dispatch_fits;
pub use dispatch::lemma_exact_match_runs_candidate;
pub use dispatch::lemma_fallback_only;
pub use dispatch::lemma_last_added_wins;
pub use dispatch::mapped_candidate;
pub use dispatch::plain_candidate;
pub use dispatch::select_candidate;
pub use dispatch::Candidate;
pub use shape::cast_ok;
pub use shape::fits;
pub use shape::lemma_absent_casts_to_any_optional;
pub use shape::lemma_borrow_kinds_disjoint;
pub use shape::lemma_cast_same_shape;
pub use shape::lemma_match_implies_cast_succeeds;
pub use shape::lemma_present_requires_equal_shape;
pub use shape::lemma_shape_matches_is_equality;
pub use shape::shape_matches;
pub use shape::value_fits;
pub use shape::Shape;
pub use shape::ShapedValue;
pub use specializer::Specializer;
pub use specializer_borrowed::SpecializerBorrowed;
pub use specializer_borrowed_param::SpecializerBorrowedParam;
pub use specializer_borrowed_return::SpecializerBorrowedReturn;
pub use tag::leaf_int;
pub use tag::widens;
pub use tag::TypeTag;
pub use tag::Value;
pub use transform::applies;
pub use transform::transform_applies;
pub use transform::transform_apply;
pub use transform::transform_defined;
pub use transform::Factor;
pub use transform::Transform;
