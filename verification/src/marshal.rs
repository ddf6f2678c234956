//! Conversions between [`Value`] and the runtime's flat record.

use vstd::prelude::*;
use vstd::std_specs::convert::{FromSpecImpl, TryFromSpecImpl};
use crate::bits::{
    lemma_i32_as_u128, lemma_i64_as_u128, lemma_u128_as_i32, lemma_u128_as_i64,
    lemma_u128_as_u32, lemma_u128_as_u64, signed_residue, two_to_32, two_to_64,
    unsigned_residue,
};
use crate::value::Value;
use crate::wire::{
    WasmEdgeValue, VAL_TYPE_EXTERN_REF, VAL_TYPE_F32, VAL_TYPE_F64, VAL_TYPE_FUNC_REF,
    VAL_TYPE_I32, VAL_TYPE_I64, VAL_TYPE_V128,
};

verus! {

impl Value {
    /// The flat record that stands for this value.
    pub open spec fn to_wire(self) -> WasmEdgeValue {
        WasmEdgeValue { value: self.payload() as u128, ty: self.val_type() }
    }
}

impl From<Value> for WasmEdgeValue {
    /// Marshals a value into the runtime's flat record. Every value has one.
    fn from(value: Value) -> (raw: WasmEdgeValue)
        ensures
            raw == value.to_wire(),
            raw.ty == value.val_type(),
            raw.value == value.payload(),
    {
        match value {
            Value::I32(v) => {
                proof {
                    lemma_i32_as_u128(v);
                }
                WasmEdgeValue { value: #[verifier::truncate] (v as u128), ty: VAL_TYPE_I32 }
            },
            Value::I64(v) => {
                proof {
                    lemma_i64_as_u128(v);
                }
                WasmEdgeValue { value: #[verifier::truncate] (v as u128), ty: VAL_TYPE_I64 }
            },
            Value::F32(bits) => WasmEdgeValue { value: bits as u128, ty: VAL_TYPE_F32 },
            Value::F64(bits) => WasmEdgeValue { value: bits as u128, ty: VAL_TYPE_F64 },
            Value::V128(bits) => WasmEdgeValue { value: bits, ty: VAL_TYPE_V128 },
            Value::FuncRef(handle) => WasmEdgeValue { value: handle, ty: VAL_TYPE_FUNC_REF },
            Value::ExternRef(handle) => WasmEdgeValue { value: handle, ty: VAL_TYPE_EXTERN_REF },
        }
    }
}

impl FromSpecImpl<Value> for WasmEdgeValue {
    open spec fn obeys_from_spec() -> bool {
        true
    }

    open spec fn from_spec(value: Value) -> WasmEdgeValue {
        value.to_wire()
    }
}

/// The error of reading back a record whose type tag no value carries.
#[derive(Clone, Copy, Debug, PartialEq, Eq, Structural)]
pub struct UnknownValType {
    /// The tag that was found.
    pub ty: u32,
}

impl WasmEdgeValue {
    /// The value that this record stands for: for an integer or float tag the
    /// payload cut to the value's width, read as signed for an integer and as
    /// a bit pattern for a float; for a reference tag the whole payload. For
    /// every other tag, the vector tag among them, the error that names the
    /// tag.
    pub open spec fn to_value(self) -> Result<Value, UnknownValType> {
        if self.ty == VAL_TYPE_I32 {
            Ok(Value::I32(signed_residue(self.value as int, two_to_32()) as i32))
        } else if self.ty == VAL_TYPE_I64 {
            Ok(Value::I64(signed_residue(self.value as int, two_to_64()) as i64))
        } else if self.ty == VAL_TYPE_F32 {
            Ok(Value::F32(unsigned_residue(self.value as int, two_to_32()) as u32))
        } else if self.ty == VAL_TYPE_F64 {
            Ok(Value::F64(unsigned_residue(self.value as int, two_to_64()) as u64))
        } else if self.ty == VAL_TYPE_FUNC_REF {
            Ok(Value::FuncRef(self.value))
        } else if self.ty == VAL_TYPE_EXTERN_REF {
            Ok(Value::ExternRef(self.value))
        } else {
            Err(UnknownValType { ty: self.ty })
        }
    }
}

impl TryFrom<WasmEdgeValue> for Value {
    type Error = UnknownValType;

    /// Reads a value back from the runtime's flat record, or reports the tag
    /// where it is none that can be read back.
    fn try_from(raw: WasmEdgeValue) -> (res: Result<Value, UnknownValType>)
        ensures
            res == raw.to_value(),
    {
        if raw.ty == VAL_TYPE_I32 {
            proof {
                lemma_u128_as_i32(raw.value);
            }
            Ok(Value::I32(#[verifier::truncate] (raw.value as i32)))
        } else if raw.ty == VAL_TYPE_I64 {
            proof {
                lemma_u128_as_i64(raw.value);
            }
            Ok(Value::I64(#[verifier::truncate] (raw.value as i64)))
        } else if raw.ty == VAL_TYPE_F32 {
            proof {
                lemma_u128_as_u32(raw.value);
            }
            Ok(Value::F32(#[verifier::truncate] (raw.value as u32)))
        } else if raw.ty == VAL_TYPE_F64 {
            proof {
                lemma_u128_as_u64(raw.value);
            }
            Ok(Value::F64(#[verifier::truncate] (raw.value as u64)))
        } else if raw.ty == VAL_TYPE_FUNC_REF {
            Ok(Value::FuncRef(raw.value))
        } else if raw.ty == VAL_TYPE_EXTERN_REF {
            Ok(Value::ExternRef(raw.value))
        } else {
            Err(UnknownValType { ty: raw.ty })
        }
    }
}

impl TryFromSpecImpl<WasmEdgeValue> for Value {
    open spec fn obeys_try_from_spec() -> bool {
        true
    }

    open spec fn try_from_spec(raw: WasmEdgeValue) -> Result<Value, UnknownValType> {
        raw.to_value()
    }
}

impl Value {
    /// Reads a value back from a record of the runtime. The runtime hands out
    /// no record with a tag that cannot be read back, and the caller answers
    /// for that.
    pub fn from_wire(raw: WasmEdgeValue) -> (value: Value)
        requires
            raw.to_value() is Ok,
        ensures
            raw.to_value() == Ok::<Value, UnknownValType>(value),
    {
        match Value::try_from(raw) {
            Ok(value) => value,
            Err(_) => vstd::pervasive::unreached(),
        }
    }
}

} // verus!
