//! The polymorphic Wasm value.

use vstd::prelude::*;
use vstd::std_specs::convert::FromSpecImpl;
use crate::bits::{
    lemma_i32_as_u32, lemma_u32_as_i32, lemma_u64_as_i64, lemma_u64_as_u32, signed_residue,
    two_to_128, two_to_32, two_to_64, unsigned_residue,
};
use crate::wire::{
    VAL_TYPE_EXTERN_REF, VAL_TYPE_F32, VAL_TYPE_F64, VAL_TYPE_FUNC_REF, VAL_TYPE_I32,
    VAL_TYPE_I64, VAL_TYPE_V128,
};

verus! {

/// A Wasm value of any primitive, vector or reference type.
///
/// The two float variants hold the IEEE-754 bit pattern of the float, so that
/// a value is exactly its bits: two values are equal when their variants and
/// bits are.
#[derive(Clone, Copy, Debug, PartialEq, Eq, Structural)]
pub enum Value {
    /// A 32-bit integer.
    I32(i32),
    /// A 64-bit integer.
    I64(i64),
    /// The bit pattern of a 32-bit float.
    F32(u32),
    /// The bit pattern of a 64-bit float.
    F64(u64),
    /// A 128-bit vector, as raw bits.
    V128(u128),
    /// A reference to a Wasm function.
    FuncRef(u128),
    /// A reference to opaque data in the Wasm instance.
    ExternRef(u128),
}

impl Value {
    /// The type tag under which the runtime holds this value.
    pub open spec fn val_type(self) -> u32 {
        match self {
            Value::I32(_) => VAL_TYPE_I32,
            Value::I64(_) => VAL_TYPE_I64,
            Value::F32(_) => VAL_TYPE_F32,
            Value::F64(_) => VAL_TYPE_F64,
            Value::V128(_) => VAL_TYPE_V128,
            Value::FuncRef(_) => VAL_TYPE_FUNC_REF,
            Value::ExternRef(_) => VAL_TYPE_EXTERN_REF,
        }
    }

    /// The 128-bit payload under which the runtime holds this value, as a
    /// number in `0 .. 2^128`: an integer in two's complement, sign-extended
    /// to the full slot; a float's bit pattern, zero-extended; vector and
    /// reference bits as they are.
    pub open spec fn payload(self) -> int {
        match self {
            Value::I32(v) => unsigned_residue(v as int, two_to_128()),
            Value::I64(v) => unsigned_residue(v as int, two_to_128()),
            Value::F32(bits) => bits as int,
            Value::F64(bits) => bits as int,
            Value::V128(bits) => bits as int,
            Value::FuncRef(handle) => handle as int,
            Value::ExternRef(handle) => handle as int,
        }
    }

    /// The value as an `i32`: a 32-bit integer as it is, a 32-bit float as
    /// its bit pattern read as signed; nothing for the other variants.
    pub open spec fn spec_as_i32(&self) -> Option<i32> {
        match *self {
            Value::I32(v) => Some(v),
            Value::F32(bits) => Some(signed_residue(bits as int, two_to_32()) as i32),
            _ => None,
        }
    }

    /// The value as a `u32`: a 32-bit integer as its two's-complement
    /// pattern, a 64-bit float as the low 32 bits of its bit pattern; nothing
    /// for the other variants.
    pub open spec fn spec_as_u32(&self) -> Option<u32> {
        match *self {
            Value::I32(v) => Some(unsigned_residue(v as int, two_to_32()) as u32),
            Value::F64(bits) => Some(unsigned_residue(bits as int, two_to_32()) as u32),
            _ => None,
        }
    }

    /// The value as an `i64`: an integer as its number, a 32-bit float as its
    /// bit pattern zero-extended, a 64-bit float as its bit pattern read as
    /// signed; nothing for the other variants.
    pub open spec fn spec_as_i64(&self) -> Option<i64> {
        match *self {
            Value::I32(v) => Some(v as i64),
            Value::I64(v) => Some(v),
            Value::F32(bits) => Some(bits as i64),
            Value::F64(bits) => Some(signed_residue(bits as int, two_to_64()) as i64),
            _ => None,
        }
    }

    /// The value as the bit pattern of an `f32`: that of a 32-bit float;
    /// nothing for the other variants.
    pub open spec fn spec_as_f32(&self) -> Option<u32> {
        match *self {
            Value::F32(bits) => Some(bits),
            _ => None,
        }
    }

    /// The value as the bit pattern of an `f64`: that of a 64-bit float, or
    /// that of a 32-bit float zero-extended; nothing for the other variants.
    pub open spec fn spec_as_f64(&self) -> Option<u64> {
        match *self {
            Value::F32(bits) => Some(bits as u64),
            Value::F64(bits) => Some(bits),
            _ => None,
        }
    }

    /// The value as a `u128`: the bits of a vector; nothing for the other
    /// variants.
    pub open spec fn spec_as_u128(&self) -> Option<u128> {
        match *self {
            Value::V128(bits) => Some(bits),
            _ => None,
        }
    }

    /// Returns an `i32`, if the value is a 32-bit integer or a 32-bit float.
    /// The integer comes out as it is, the float as its bit pattern read as a
    /// signed integer.
    #[verifier::when_used_as_spec(spec_as_i32)]
    pub fn as_i32(&self) -> (res: Option<i32>)
        ensures
            res == self.spec_as_i32(),
    {
        match self {
            Value::I32(v) => Some(*v),
            Value::F32(bits) => {
                proof {
                    lemma_u32_as_i32(*bits);
                }
                Some(#[verifier::truncate] (*bits as i32))
            },
            _ => None,
        }
    }

    /// Returns a `u32`, if the value is a 32-bit integer or a 64-bit float.
    /// The integer comes out as its two's-complement pattern, the float as the
    /// low 32 bits of its bit pattern.
    #[verifier::when_used_as_spec(spec_as_u32)]
    pub fn as_u32(&self) -> (res: Option<u32>)
        ensures
            res == self.spec_as_u32(),
    {
        match self {
            Value::I32(v) => {
                proof {
                    lemma_i32_as_u32(*v);
                }
                Some(#[verifier::truncate] (*v as u32))
            },
            Value::F64(bits) => {
                proof {
                    lemma_u64_as_u32(*bits);
                }
                Some(#[verifier::truncate] (*bits as u32))
            },
            _ => None,
        }
    }

    /// Returns an `i64`, if the value is an integer or a float. An integer
    /// keeps its number; a float comes out as its bit pattern, the 32-bit one
    /// zero-extended, the 64-bit one read as a signed integer.
    #[verifier::when_used_as_spec(spec_as_i64)]
    pub fn as_i64(&self) -> (res: Option<i64>)
        ensures
            res == self.spec_as_i64(),
    {
        match self {
            Value::I32(v) => Some(*v as i64),
            Value::I64(v) => Some(*v),
            Value::F32(bits) => Some(*bits as i64),
            Value::F64(bits) => {
                proof {
                    lemma_u64_as_i64(*bits);
                }
                Some(#[verifier::truncate] (*bits as i64))
            },
            _ => None,
        }
    }

    /// Returns the bit pattern of an `f32`, if the value is a 32-bit float.
    #[verifier::when_used_as_spec(spec_as_f32)]
    pub fn as_f32(&self) -> (res: Option<u32>)
        ensures
            res == self.spec_as_f32(),
    {
        match self {
            Value::F32(bits) => Some(*bits),
            _ => None,
        }
    }

    /// Returns the bit pattern of an `f64`, if the value is a float. The
    /// pattern of a 32-bit float comes out zero-extended, not converted.
    #[verifier::when_used_as_spec(spec_as_f64)]
    pub fn as_f64(&self) -> (res: Option<u64>)
        ensures
            res == self.spec_as_f64(),
    {
        match self {
            Value::F32(bits) => Some(*bits as u64),
            Value::F64(bits) => Some(*bits),
            _ => None,
        }
    }

    /// Returns a `u128`, if the value is a 128-bit vector.
    #[verifier::when_used_as_spec(spec_as_u128)]
    pub fn as_u128(&self) -> (res: Option<u128>)
        ensures
            res == self.spec_as_u128(),
    {
        match self {
            Value::V128(bits) => Some(*bits),
            _ => None,
        }
    }
}

impl From<i8> for Value {
    /// An `i8` becomes a 32-bit integer of the same number.
    fn from(value: i8) -> (res: Value)
        ensures
            res == Value::I32(value as i32),
    {
        Value::I32(value as i32)
    }
}

impl FromSpecImpl<i8> for Value {
    open spec fn obeys_from_spec() -> bool {
        true
    }

    open spec fn from_spec(value: i8) -> Value {
        Value::I32(value as i32)
    }
}

impl From<u8> for Value {
    /// A `u8` becomes a 32-bit integer of the same number.
    fn from(value: u8) -> (res: Value)
        ensures
            res == Value::I32(value as i32),
    {
        Value::I32(value as i32)
    }
}

impl FromSpecImpl<u8> for Value {
    open spec fn obeys_from_spec() -> bool {
        true
    }

    open spec fn from_spec(value: u8) -> Value {
        Value::I32(value as i32)
    }
}

impl From<i16> for Value {
    /// An `i16` becomes a 32-bit integer of the same number.
    fn from(value: i16) -> (res: Value)
        ensures
            res == Value::I32(value as i32),
    {
        Value::I32(value as i32)
    }
}

impl FromSpecImpl<i16> for Value {
    open spec fn obeys_from_spec() -> bool {
        true
    }

    open spec fn from_spec(value: i16) -> Value {
        Value::I32(value as i32)
    }
}

impl From<u16> for Value {
    /// A `u16` becomes a 32-bit integer of the same number.
    fn from(value: u16) -> (res: Value)
        ensures
            res == Value::I32(value as i32),
    {
        Value::I32(value as i32)
    }
}

impl FromSpecImpl<u16> for Value {
    open spec fn obeys_from_spec() -> bool {
        true
    }

    open spec fn from_spec(value: u16) -> Value {
        Value::I32(value as i32)
    }
}

impl From<i32> for Value {
    /// An `i32` becomes a 32-bit integer.
    fn from(value: i32) -> (res: Value)
        ensures
            res == Value::I32(value),
    {
        Value::I32(value)
    }
}

impl FromSpecImpl<i32> for Value {
    open spec fn obeys_from_spec() -> bool {
        true
    }

    open spec fn from_spec(value: i32) -> Value {
        Value::I32(value)
    }
}

impl From<u32> for Value {
    /// A `u32` becomes a 64-bit integer of the same number.
    fn from(value: u32) -> (res: Value)
        ensures
            res == Value::I64(value as i64),
    {
        Value::I64(value as i64)
    }
}

impl FromSpecImpl<u32> for Value {
    open spec fn obeys_from_spec() -> bool {
        true
    }

    open spec fn from_spec(value: u32) -> Value {
        Value::I64(value as i64)
    }
}

impl From<i64> for Value {
    /// An `i64` becomes a 64-bit integer.
    fn from(value: i64) -> (res: Value)
        ensures
            res == Value::I64(value),
    {
        Value::I64(value)
    }
}

impl FromSpecImpl<i64> for Value {
    open spec fn obeys_from_spec() -> bool {
        true
    }

    open spec fn from_spec(value: i64) -> Value {
        Value::I64(value)
    }
}

impl From<u128> for Value {
    /// A `u128` becomes a 128-bit vector of the same bits.
    fn from(value: u128) -> (res: Value)
        ensures
            res == Value::V128(value),
    {
        Value::V128(value)
    }
}

impl FromSpecImpl<u128> for Value {
    open spec fn obeys_from_spec() -> bool {
        true
    }

    open spec fn from_spec(value: u128) -> Value {
        Value::V128(value)
    }
}

} // verus!
