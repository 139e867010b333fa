use vstd::prelude::*;

verus! {

/// Identifier of one concrete leaf type.
///
/// Two tags are equal exactly when they stand for the same type; a tag never
/// identifies a merely compatible or coercible type.
#[derive(Clone, Copy, Debug, PartialEq, Eq, Structural)]
pub enum TypeTag {
    U8,
    U16,
    U32,
    U64,
    I8,
    I16,
    I32,
    I64,
    Bool,
    Text,
    Unit,
}

/// A value bound to the concrete leaf type named by its variant.
///
/// Ownership is exclusive to the holder: an owned cast consumes the value,
/// a borrowing cast lends it.
#[derive(Debug, PartialEq)]
pub enum Value {
    U8(u8),
    U16(u16),
    U32(u32),
    U64(u64),
    I8(i8),
    I16(i16),
    I32(i32),
    I64(i64),
    Bool(bool),
    Text(String),
    Unit,
}

impl Value {
    /// The tag of the type this value is bound to.
    pub open spec fn spec_tag(&self) -> TypeTag {
        match self {
            Value::U8(_) => TypeTag::U8,
            Value::U16(_) => TypeTag::U16,
            Value::U32(_) => TypeTag::U32,
            Value::U64(_) => TypeTag::U64,
            Value::I8(_) => TypeTag::I8,
            Value::I16(_) => TypeTag::I16,
            Value::I32(_) => TypeTag::I32,
            Value::I64(_) => TypeTag::I64,
            Value::Bool(_) => TypeTag::Bool,
            Value::Text(_) => TypeTag::Text,
            Value::Unit => TypeTag::Unit,
        }
    }

    /// The tag of the type this value is bound to.
    #[verifier::when_used_as_spec(spec_tag)]
    pub fn tag(&self) -> (t: TypeTag)
        ensures
            t == self.spec_tag(),
    {
        match self {
            Value::U8(_) => TypeTag::U8,
            Value::U16(_) => TypeTag::U16,
            Value::U32(_) => TypeTag::U32,
            Value::U64(_) => TypeTag::U64,
            Value::I8(_) => TypeTag::I8,
            Value::I16(_) => TypeTag::I16,
            Value::I32(_) => TypeTag::I32,
            Value::I64(_) => TypeTag::I64,
            Value::Bool(_) => TypeTag::Bool,
            Value::Text(_) => TypeTag::Text,
            Value::Unit => TypeTag::Unit,
        }
    }
}

/// The tags that identify integer leaf types.
pub open spec fn is_int_tag(t: TypeTag) -> bool {
    match t {
        TypeTag::U8 => true,
        TypeTag::U16 => true,
        TypeTag::U32 => true,
        TypeTag::U64 => true,
        TypeTag::I8 => true,
        TypeTag::I16 => true,
        TypeTag::I32 => true,
        TypeTag::I64 => true,
        _ => false,
    }
}

/// Mathematical content of an integer leaf; zero on the other leaves.
pub open spec fn leaf_int(v: Value) -> int {
    match v {
        Value::U8(n) => n as int,
        Value::U16(n) => n as int,
        Value::U32(n) => n as int,
        Value::U64(n) => n as int,
        Value::I8(n) => n as int,
        Value::I16(n) => n as int,
        Value::I32(n) => n as int,
        Value::I64(n) => n as int,
        _ => 0,
    }
}

/// The lossless conversions among the integer leaf types: exactly the pairs
/// whose primitive types have a plain `From` conversion between them,
/// including every type to itself.
pub open spec fn widens(a: TypeTag, b: TypeTag) -> bool {
    match a {
        TypeTag::U8 => {
            ||| b == TypeTag::U8
            ||| b == TypeTag::U16
            ||| b == TypeTag::U32
            ||| b == TypeTag::U64
            ||| b == TypeTag::I16
            ||| b == TypeTag::I32
            ||| b == TypeTag::I64
        },
        TypeTag::U16 => {
            ||| b == TypeTag::U16
            ||| b == TypeTag::U32
            ||| b == TypeTag::U64
            ||| b == TypeTag::I32
            ||| b == TypeTag::I64
        },
        TypeTag::U32 => {
            ||| b == TypeTag::U32
            ||| b == TypeTag::U64
            ||| b == TypeTag::I64
        },
        TypeTag::U64 => b == TypeTag::U64,
        TypeTag::I8 => {
            ||| b == TypeTag::I8
            ||| b == TypeTag::I16
            ||| b == TypeTag::I32
            ||| b == TypeTag::I64
        },
        TypeTag::I16 => {
            ||| b == TypeTag::I16
            ||| b == TypeTag::I32
            ||| b == TypeTag::I64
        },
        TypeTag::I32 => {
            ||| b == TypeTag::I32
            ||| b == TypeTag::I64
        },
        TypeTag::I64 => b == TypeTag::I64,
        _ => false,
    }
}

impl TypeTag {
    /// Whether a value of this type converts losslessly to `other`.
    pub fn widens_to(&self, other: &TypeTag) -> (r: bool)
        ensures
            r == widens(*self, *other),
    {
        match self {
            TypeTag::U8 => {
                matches!(
                    other,
                    TypeTag::U8 | TypeTag::U16 | TypeTag::U32 | TypeTag::U64 | TypeTag::I16
                        | TypeTag::I32 | TypeTag::I64
                )
            },
            TypeTag::U16 => {
                matches!(
                    other,
                    TypeTag::U16 | TypeTag::U32 | TypeTag::U64 | TypeTag::I32 | TypeTag::I64
                )
            },
            TypeTag::U32 => matches!(other, TypeTag::U32 | TypeTag::U64 | TypeTag::I64),
            TypeTag::U64 => matches!(other, TypeTag::U64),
            TypeTag::I8 => {
                matches!(other, TypeTag::I8 | TypeTag::I16 | TypeTag::I32 | TypeTag::I64)
            },
            TypeTag::I16 => matches!(other, TypeTag::I16 | TypeTag::I32 | TypeTag::I64),
            TypeTag::I32 => matches!(other, TypeTag::I32 | TypeTag::I64),
            TypeTag::I64 => matches!(other, TypeTag::I64),
            _ => false,
        }
    }
}

} // verus!
