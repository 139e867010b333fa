use vstd::prelude::*;
use vstd::pervasive::unreached;
use vstd::wrapping::i16_specs;
use vstd::wrapping::i32_specs;
use vstd::wrapping::i64_specs;
use vstd::wrapping::i8_specs;
use vstd::wrapping::u16_specs;
use vstd::wrapping::u32_specs;
use vstd::wrapping::u64_specs;
use vstd::wrapping::u8_specs;

use crate::shape::fits;
use crate::shape::Shape;
use crate::shape::ShapedValue;
use crate::tag::leaf_int;
use crate::tag::widens;
use crate::tag::TypeTag;
use crate::tag::Value;

verus! {

/// A small multiplier for the scaling transformation.
#[derive(Clone, Copy, Debug, PartialEq, Eq, Structural)]
pub enum Factor {
    One,
    Two,
    Three,
}

impl Factor {
    /// The multiplier this factor stands for.
    pub open spec fn value(self) -> int {
        match self {
            Factor::One => 1,
            Factor::Two => 2,
            Factor::Three => 3,
        }
    }
}

/// A candidate transformation in first-order form.
///
/// `Identity` hands its input through; `Scale(f, s)` reads an integer leaf,
/// converts it losslessly to the leaf type of `s`, multiplies it by `f` with
/// wrap-around, and wraps the product in the borrow form of `s`; `Const(c)`
/// ignores its input and produces `c`.
#[derive(Debug, PartialEq)]
pub enum Transform {
    Identity,
    Scale(Factor, Shape),
    Const(ShapedValue),
}

/// The leaf tag of a leaf shape; nothing on a structural wrapper.
pub open spec fn leaf_tag_of(s: Shape) -> Option<TypeTag> {
    match s {
        Shape::Owned(t) => Some(t),
        Shape::SharedRef(t) => Some(t),
        Shape::ExclusiveRef(t) => Some(t),
        Shape::PinnedSharedRef(t) => Some(t),
        Shape::PinnedExclusiveRef(t) => Some(t),
        _ => None::<TypeTag>,
    }
}

/// The leaf value inside a leaf-shaped value; nothing on a wrapper.
pub open spec fn leaf_of(v: ShapedValue) -> Option<Value> {
    match v {
        ShapedValue::Owned(x) => Some(x),
        ShapedValue::SharedRef(x) => Some(x),
        ShapedValue::ExclusiveRef(x) => Some(x),
        ShapedValue::PinnedSharedRef(x) => Some(x),
        ShapedValue::PinnedExclusiveRef(x) => Some(x),
        _ => None::<Value>,
    }
}

/// The leaf value `x` held in the borrow form of the leaf shape `s`.
pub open spec fn make_leaf(s: Shape, x: Value) -> ShapedValue {
    match s {
        Shape::SharedRef(_) => ShapedValue::SharedRef(x),
        Shape::ExclusiveRef(_) => ShapedValue::ExclusiveRef(x),
        Shape::PinnedSharedRef(_) => ShapedValue::PinnedSharedRef(x),
        Shape::PinnedExclusiveRef(_) => ShapedValue::PinnedExclusiveRef(x),
        _ => ShapedValue::Owned(x),
    }
}

/// The integer leaf of type `t` holding `x`'s content multiplied by `fac`,
/// with wrap-around in `t`; meaningful when `x`'s type converts losslessly
/// to `t`.
pub open spec fn scale_value(fac: Factor, t: TypeTag, x: Value) -> Value {
    match t {
        TypeTag::U8 => Value::U8(u8_specs::wrapping_mul(leaf_int(x) as u8, fac.value() as u8)),
        TypeTag::U16 => Value::U16(
            u16_specs::wrapping_mul(leaf_int(x) as u16, fac.value() as u16),
        ),
        TypeTag::U32 => Value::U32(
            u32_specs::wrapping_mul(leaf_int(x) as u32, fac.value() as u32),
        ),
        TypeTag::U64 => Value::U64(
            u64_specs::wrapping_mul(leaf_int(x) as u64, fac.value() as u64),
        ),
        TypeTag::I8 => Value::I8(i8_specs::wrapping_mul(leaf_int(x) as i8, fac.value() as i8)),
        TypeTag::I16 => Value::I16(
            i16_specs::wrapping_mul(leaf_int(x) as i16, fac.value() as i16),
        ),
        TypeTag::I32 => Value::I32(
            i32_specs::wrapping_mul(leaf_int(x) as i32, fac.value() as i32),
        ),
        TypeTag::I64 => Value::I64(
            i64_specs::wrapping_mul(leaf_int(x) as i64, fac.value() as i64),
        ),
        _ => x,
    }
}

/// Whether a transformation carries values of shape `p` to values of shape
/// `r`: the typing discipline a candidate must satisfy at registration.
pub open spec fn transform_applies(f: Transform, p: Shape, r: Shape) -> bool {
    match f {
        Transform::Identity => p == r,
        Transform::Scale(_, out) => {
            &&& out == r
            &&& leaf_tag_of(p) matches Some(a) && leaf_tag_of(out) matches Some(b) && widens(a, b)
        },
        Transform::Const(c) => fits(c, r),
    }
}

/// Whether a transformation is defined on the particular value `v`.
pub open spec fn transform_defined(f: Transform, v: ShapedValue) -> bool {
    match f {
        Transform::Identity => true,
        Transform::Scale(_, out) => leaf_tag_of(out) matches Some(b) && leaf_of(v) matches Some(x)
            && widens(x.tag(), b),
        Transform::Const(_) => true,
    }
}

/// The value a transformation produces from `v`.
pub open spec fn transform_apply(f: Transform, v: ShapedValue) -> ShapedValue {
    match f {
        Transform::Identity => v,
        Transform::Scale(fac, out) => match leaf_of(v) {
            Some(x) => match leaf_tag_of(out) {
                Some(b) => make_leaf(out, scale_value(fac, b, x)),
                None => v,
            },
            None => v,
        },
        Transform::Const(c) => c,
    }
}

/// A transformation that carries `p` to `r` is defined on every value of
/// shape `p`, and its result is a value of shape `r`.
pub proof fn lemma_apply_fits(f: Transform, p: Shape, r: Shape, v: ShapedValue)
    requires
        transform_applies(f, p, r),
        fits(v, p),
    ensures
        transform_defined(f, v),
        fits(transform_apply(f, v), r),
{
    match f {
        Transform::Identity => {},
        Transform::Const(_) => {},
        Transform::Scale(fac, out) => {
            match p {
                Shape::Owned(_) => {},
                Shape::SharedRef(_) => {},
                Shape::ExclusiveRef(_) => {},
                Shape::PinnedSharedRef(_) => {},
                Shape::PinnedExclusiveRef(_) => {},
                _ => {
                    assert(false);
                },
            }
            match v {
                ShapedValue::Owned(_) => {},
                ShapedValue::SharedRef(_) => {},
                ShapedValue::ExclusiveRef(_) => {},
                ShapedValue::PinnedSharedRef(_) => {},
                ShapedValue::PinnedExclusiveRef(_) => {},
                _ => {
                    assert(false);
                },
            }
            let x = leaf_of(v)->Some_0;
            let b = leaf_tag_of(out)->Some_0;
            assert(scale_value(fac, b, x).tag() == b);
        },
    }
}

/// The factor as a small machine integer.
fn factor_u8(fac: Factor) -> (r: u8)
    ensures
        r as int == fac.value(),
        1 <= r <= 3,
{
    match fac {
        Factor::One => 1,
        Factor::Two => 2,
        Factor::Three => 3,
    }
}

/// The scaling step on integer leaves, executable form.
fn scale_exec(fac: Factor, t: TypeTag, x: Value) -> (r: Value)
    requires
        widens(x.tag(), t),
    ensures
        r == scale_value(fac, t, x),
{
    let k: u8 = factor_u8(fac);
    match (x, t) {
        (Value::U8(a), TypeTag::U8) => Value::U8(a.wrapping_mul(k)),
        (Value::U8(a), TypeTag::U16) => Value::U16((a as u16).wrapping_mul(k as u16)),
        (Value::U8(a), TypeTag::U32) => Value::U32((a as u32).wrapping_mul(k as u32)),
        (Value::U8(a), TypeTag::U64) => Value::U64((a as u64).wrapping_mul(k as u64)),
        (Value::U8(a), TypeTag::I16) => Value::I16((a as i16).wrapping_mul(k as i16)),
        (Value::U8(a), TypeTag::I32) => Value::I32((a as i32).wrapping_mul(k as i32)),
        (Value::U8(a), TypeTag::I64) => Value::I64((a as i64).wrapping_mul(k as i64)),
        (Value::U16(a), TypeTag::U16) => Value::U16(a.wrapping_mul(k as u16)),
        (Value::U16(a), TypeTag::U32) => Value::U32((a as u32).wrapping_mul(k as u32)),
        (Value::U16(a), TypeTag::U64) => Value::U64((a as u64).wrapping_mul(k as u64)),
        (Value::U16(a), TypeTag::I32) => Value::I32((a as i32).wrapping_mul(k as i32)),
        (Value::U16(a), TypeTag::I64) => Value::I64((a as i64).wrapping_mul(k as i64)),
        (Value::U32(a), TypeTag::U32) => Value::U32(a.wrapping_mul(k as u32)),
        (Value::U32(a), TypeTag::U64) => Value::U64((a as u64).wrapping_mul(k as u64)),
        (Value::U32(a), TypeTag::I64) => Value::I64((a as i64).wrapping_mul(k as i64)),
        (Value::U64(a), TypeTag::U64) => Value::U64(a.wrapping_mul(k as u64)),
        (Value::I8(a), TypeTag::I8) => Value::I8(a.wrapping_mul(k as i8)),
        (Value::I8(a), TypeTag::I16) => Value::I16((a as i16).wrapping_mul(k as i16)),
        (Value::I8(a), TypeTag::I32) => Value::I32((a as i32).wrapping_mul(k as i32)),
        (Value::I8(a), TypeTag::I64) => Value::I64((a as i64).wrapping_mul(k as i64)),
        (Value::I16(a), TypeTag::I16) => Value::I16(a.wrapping_mul(k as i16)),
        (Value::I16(a), TypeTag::I32) => Value::I32((a as i32).wrapping_mul(k as i32)),
        (Value::I16(a), TypeTag::I64) => Value::I64((a as i64).wrapping_mul(k as i64)),
        (Value::I32(a), TypeTag::I32) => Value::I32(a.wrapping_mul(k as i32)),
        (Value::I32(a), TypeTag::I64) => Value::I64((a as i64).wrapping_mul(k as i64)),
        (Value::I64(a), TypeTag::I64) => Value::I64(a.wrapping_mul(k as i64)),
        _ => unreached(),
    }
}

/// The leaf value out of a leaf-shaped value.
fn take_leaf(v: ShapedValue) -> (x: Value)
    requires
        leaf_of(v) matches Some(_),
    ensures
        leaf_of(v) == Some(x),
{
    match v {
        ShapedValue::Owned(x) => x,
        ShapedValue::SharedRef(x) => x,
        ShapedValue::ExclusiveRef(x) => x,
        ShapedValue::PinnedSharedRef(x) => x,
        ShapedValue::PinnedExclusiveRef(x) => x,
        _ => unreached(),
    }
}

/// The leaf tag of a leaf shape, executable form.
fn leaf_tag_exec(s: &Shape) -> (t: TypeTag)
    requires
        leaf_tag_of(*s) matches Some(_),
    ensures
        leaf_tag_of(*s) == Some(t),
{
    match s {
        Shape::Owned(t) => *t,
        Shape::SharedRef(t) => *t,
        Shape::ExclusiveRef(t) => *t,
        Shape::PinnedSharedRef(t) => *t,
        Shape::PinnedExclusiveRef(t) => *t,
        _ => unreached(),
    }
}

/// The leaf value `x` held in the borrow form of `s`, executable form.
fn make_leaf_exec(s: Shape, x: Value) -> (r: ShapedValue)
    requires
        leaf_tag_of(s) matches Some(_),
    ensures
        r == make_leaf(s, x),
{
    match s {
        Shape::Owned(_) => ShapedValue::Owned(x),
        Shape::SharedRef(_) => ShapedValue::SharedRef(x),
        Shape::ExclusiveRef(_) => ShapedValue::ExclusiveRef(x),
        Shape::PinnedSharedRef(_) => ShapedValue::PinnedSharedRef(x),
        Shape::PinnedExclusiveRef(_) => ShapedValue::PinnedExclusiveRef(x),
        _ => unreached(),
    }
}

/// Run a transformation on a value it is defined on.
pub(crate) fn apply_transform(f: Transform, v: ShapedValue) -> (r: ShapedValue)
    requires
        transform_defined(f, v),
    ensures
        r == transform_apply(f, v),
{
    match f {
        Transform::Identity => v,
        Transform::Scale(fac, out) => {
            let x = take_leaf(v);
            let b = leaf_tag_exec(&out);
            let y = scale_exec(fac, b, x);
            make_leaf_exec(out, y)
        },
        Transform::Const(c) => c,
    }
}

/// Whether `f` carries shape `p` to shape `r`, executable form.
pub fn applies(f: &Transform, p: &Shape, r: &Shape) -> (b: bool)
    ensures
        b == transform_applies(*f, *p, *r),
{
    match f {
        Transform::Identity => p.is_same(r),
        Transform::Scale(_, out) => {
            if !out.is_same(r) {
                return false;
            }
            let a = match p {
                Shape::Owned(t) => *t,
                Shape::SharedRef(t) => *t,
                Shape::ExclusiveRef(t) => *t,
                Shape::PinnedSharedRef(t) => *t,
                Shape::PinnedExclusiveRef(t) => *t,
                _ => {
                    return false;
                },
            };
            let b = match out {
                Shape::Owned(t) => *t,
                Shape::SharedRef(t) => *t,
                Shape::ExclusiveRef(t) => *t,
                Shape::PinnedSharedRef(t) => *t,
                Shape::PinnedExclusiveRef(t) => *t,
                _ => {
                    return false;
                },
            };
            a.widens_to(&b)
        },
        Transform::Const(c) => crate::shape::value_fits(c, r),
    }
}

} // verus!
