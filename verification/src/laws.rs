//! What holds of the conversions taken together.

use vstd::prelude::*;
use vstd::std_specs::convert::FromSpec;
use crate::bits::{signed_residue, two_to_128, two_to_32, two_to_64, unsigned_residue};
use crate::marshal::UnknownValType;
use crate::value::Value;
use crate::wire::{
    WasmEdgeValue, VAL_TYPE_EXTERN_REF, VAL_TYPE_F32, VAL_TYPE_F64, VAL_TYPE_FUNC_REF,
    VAL_TYPE_I32, VAL_TYPE_I64, VAL_TYPE_V128,
};

verus! {

/// The payload of every value fits the 128-bit slot, and that of a float fits
/// the float's own width.
pub proof fn lemma_payload_fits(value: Value)
    ensures
        0 <= value.payload() < two_to_128(),
        value.to_wire().value == value.payload(),
        value is F32 ==> value.payload() < two_to_32(),
        value is F64 ==> value.payload() < two_to_64(),
{
}

/// Marshalling a value and reading the record back gives the value again,
/// for every value but a vector; the record of a vector cannot be read back.
pub proof fn lemma_wire_round_trip(value: Value)
    ensures
        !(value is V128) ==> value.to_wire().to_value() == Ok::<Value, UnknownValType>(value),
        value is V128 ==> value.to_wire().to_value() == Err::<Value, UnknownValType>(
            (UnknownValType { ty: VAL_TYPE_V128 }),
        ),
{
}

/// A value that was read from a record is no vector, has the record's tag,
/// and is read again from its own record: reading settles after one step.
pub proof fn lemma_read_then_marshal(raw: WasmEdgeValue)
    ensures
        raw.to_value() matches Ok(value) ==> {
            &&& !(value is V128)
            &&& value.to_wire().ty == raw.ty
            &&& value.to_wire().to_value() == Ok::<Value, UnknownValType>(value)
        },
{
    if let Ok(value) = raw.to_value() {
        lemma_wire_round_trip(value);
    }
}

/// Each variant has a tag of its own: two values carry the same tag exactly
/// when they are of the same variant.
pub proof fn lemma_val_type_one_to_one(a: Value, b: Value)
    ensures
        a.val_type() == b.val_type() <==> ((a is I32 && b is I32) || (a is I64 && b is I64) || (a
            is F32 && b is F32) || (a is F64 && b is F64) || (a is V128 && b is V128) || (a
            is FuncRef && b is FuncRef) || (a is ExternRef && b is ExternRef)),
{
}

/// A record can be read back exactly when its tag is that of an integer, a
/// float or a reference; the value read then carries that tag.
pub proof fn lemma_readable_tags(raw: WasmEdgeValue)
    ensures
        raw.to_value() is Ok <==> (raw.ty == VAL_TYPE_I32 || raw.ty == VAL_TYPE_I64 || raw.ty
            == VAL_TYPE_F32 || raw.ty == VAL_TYPE_F64 || raw.ty == VAL_TYPE_FUNC_REF || raw.ty
            == VAL_TYPE_EXTERN_REF),
        raw.to_value() matches Ok(value) ==> value.val_type() == raw.ty,
        raw.to_value() matches Err(unknown) ==> unknown.ty == raw.ty,
{
}

/// Two values with the same record are the same value: the type tags tell the
/// variants apart, and the payload tells the contents.
pub proof fn lemma_wire_injective(a: Value, b: Value)
    requires
        a.to_wire() == b.to_wire(),
    ensures
        a == b,
{
    lemma_payload_fits(a);
    lemma_payload_fits(b);
}

/// The record of a float carries the float's bit pattern and nothing else:
/// the payload is the pattern, zero-extended, so its low bits are the
/// pattern.
pub proof fn lemma_float_bits_exact(bits32: u32, bits64: u64)
    ensures
        Value::F32(bits32).to_wire().value == bits32,
        unsigned_residue(Value::F32(bits32).to_wire().value as int, two_to_32()) == bits32,
        Value::F64(bits64).to_wire().value == bits64,
        unsigned_residue(Value::F64(bits64).to_wire().value as int, two_to_64()) == bits64,
{
}

/// The low bits of an integer's payload are the integer's own two's-complement
/// pattern, and the bits above them repeat its sign: the payload of a number
/// that is not negative is the number, that of a negative one lies `2^128`
/// above it.
pub proof fn lemma_integer_payload(v32: i32, v64: i64)
    ensures
        unsigned_residue(Value::I32(v32).payload(), two_to_32()) == unsigned_residue(
            v32 as int,
            two_to_32(),
        ),
        Value::I32(v32).payload() == (if v32 >= 0 {
            v32 as int
        } else {
            v32 + two_to_128()
        }),
        unsigned_residue(Value::I64(v64).payload(), two_to_64()) == unsigned_residue(
            v64 as int,
            two_to_64(),
        ),
        Value::I64(v64).payload() == (if v64 >= 0 {
            v64 as int
        } else {
            v64 + two_to_128()
        }),
{
}

/// Which values each accessor accepts.
pub proof fn lemma_accessor_sources(value: Value)
    ensures
        value.as_i32() is Some <==> value is I32 || value is F32,
        value.as_u32() is Some <==> value is I32 || value is F64,
        value.as_i64() is Some <==> value is I32 || value is I64 || value is F32 || value is F64,
        value.as_f32() is Some <==> value is F32,
        value.as_f64() is Some <==> value is F32 || value is F64,
        value.as_u128() is Some <==> value is V128,
{
}

/// What an accessor returns is the payload, cut to the width of the target
/// and read with its signedness: bits are reinterpreted, never converted.
pub proof fn lemma_accessors_read_payload(value: Value)
    ensures
        value.as_i32() matches Some(x) ==> x == signed_residue(value.payload(), two_to_32()),
        value.as_u32() matches Some(x) ==> x == unsigned_residue(value.payload(), two_to_32()),
        value.as_i64() matches Some(x) ==> x == signed_residue(value.payload(), two_to_64()),
        value.as_f32() matches Some(x) ==> x == unsigned_residue(value.payload(), two_to_32()),
        value.as_f64() matches Some(x) ==> x == unsigned_residue(value.payload(), two_to_64()),
        value.as_u128() matches Some(x) ==> x == value.payload(),
{
    match value {
        Value::I32(v) => {
            let p = unsigned_residue(v as int, two_to_128());
            assert(p == if v >= 0 { v as int } else { v + two_to_128() });
            assert(signed_residue(p, two_to_32()) == v);
            assert(unsigned_residue(p, two_to_32()) == unsigned_residue(v as int, two_to_32()));
            assert(signed_residue(p, two_to_64()) == v);
        },
        Value::I64(v) => {
            let p = unsigned_residue(v as int, two_to_128());
            assert(p == if v >= 0 { v as int } else { v + two_to_128() });
            assert(signed_residue(p, two_to_64()) == v);
        },
        Value::F32(bits) => {
            assert(unsigned_residue(bits as int, two_to_32()) == bits);
            assert(unsigned_residue(bits as int, two_to_64()) == bits);
            assert(signed_residue(bits as int, two_to_64()) == bits);
        },
        Value::F64(bits) => {
            assert(unsigned_residue(bits as int, two_to_64()) == bits);
        },
        _ => {},
    }
}

/// Widening a native integer loses nothing: read back as an `i64`, the value
/// made from it is the number it was made from.
pub proof fn lemma_widening_exact(a: i8, b: u8, c: i16, d: u16, e: i32, f: u32, g: i64)
    ensures
        <Value as FromSpec<i8>>::from_spec(a).as_i64() == Some(a as i64),
        <Value as FromSpec<u8>>::from_spec(b).as_i64() == Some(b as i64),
        <Value as FromSpec<i16>>::from_spec(c).as_i64() == Some(c as i64),
        <Value as FromSpec<u16>>::from_spec(d).as_i64() == Some(d as i64),
        <Value as FromSpec<i32>>::from_spec(e).as_i64() == Some(e as i64),
        <Value as FromSpec<u32>>::from_spec(f).as_i64() == Some(f as i64),
        <Value as FromSpec<i64>>::from_spec(g).as_i64() == Some(g),
{
}

} // verus!
