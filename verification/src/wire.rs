//! The flat value record of the WasmEdge runtime and its type tags.

use vstd::prelude::*;

verus! {

/// Type tag of a 32-bit integer.
pub const VAL_TYPE_I32: u32 = 0x7F;

/// Type tag of a 64-bit integer.
pub const VAL_TYPE_I64: u32 = 0x7E;

/// Type tag of a 32-bit float.
pub const VAL_TYPE_F32: u32 = 0x7D;

/// Type tag of a 64-bit float.
pub const VAL_TYPE_F64: u32 = 0x7C;

/// Type tag of a 128-bit vector.
pub const VAL_TYPE_V128: u32 = 0x7B;

/// Type tag of a function reference.
pub const VAL_TYPE_FUNC_REF: u32 = 0x70;

/// Type tag of an external reference.
pub const VAL_TYPE_EXTERN_REF: u32 = 0x6F;

/// A value as the runtime holds it: a 128-bit payload and the tag that says
/// how to read it. The payload always fills the whole slot, whatever the
/// width of the value it carries.
#[derive(Clone, Copy, Debug, PartialEq, Eq, Structural)]
pub struct WasmEdgeValue {
    /// The payload.
    pub value: u128,
    /// The type tag.
    pub ty: u32,
}

} // verus!
