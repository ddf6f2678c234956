//! Wasm values and their marshalling to and from the flat value record of the
//! WasmEdge runtime.
//!
//! A [`Value`] is one of the seven kinds of value that the runtime accepts.
//! The runtime itself holds a value as a [`WasmEdgeValue`]: a 128-bit payload
//! and a type tag. This crate converts between the two, widens native
//! integers into values, and reads native numbers out of them. Every
//! conversion works on bits and is stated over two's-complement arithmetic
//! on unbounded integers (module [`bits`]); module [`laws`] proves what holds
//! of the conversions taken together.
//!
//! Floats appear here as their IEEE-754 bit patterns only: the conversions
//! never compute with a float, they carry its bits.

pub mod bits;
pub mod laws;
pub mod marshal;
pub mod value;
pub mod wire;

pub use marshal::UnknownValType;
pub use value::Value;
pub use wire::{
    WasmEdgeValue, VAL_TYPE_EXTERN_REF, VAL_TYPE_F32, VAL_TYPE_F64, VAL_TYPE_FUNC_REF,
    VAL_TYPE_I32, VAL_TYPE_I64, VAL_TYPE_V128,
};
