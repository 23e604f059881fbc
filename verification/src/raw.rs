//! The raw parameter representation delivered by the TEE core.
//!
//! A raw `TEE_Param` is a C union of a value pair and a memory reference.
//! Here both views are carried side by side; the runtime type tag decides
//! which one is meaningful. A memory reference holds the shared bytes that
//! its pointer refers to, or `None` for a null pointer.
use vstd::prelude::*;

verus! {

/// Number of parameters passed to every entry point.
pub const TEE_NUM_PARAMS: u32 = 4;

pub const TEE_PARAM_TYPE_NONE: u32 = 0;
pub const TEE_PARAM_TYPE_VALUE_INPUT: u32 = 1;
pub const TEE_PARAM_TYPE_VALUE_OUTPUT: u32 = 2;
pub const TEE_PARAM_TYPE_VALUE_INOUT: u32 = 3;
pub const TEE_PARAM_TYPE_MEMREF_INPUT: u32 = 5;
pub const TEE_PARAM_TYPE_MEMREF_OUTPUT: u32 = 6;
pub const TEE_PARAM_TYPE_MEMREF_INOUT: u32 = 7;

/// The value view of a raw parameter: two 32-bit registers.
#[derive(Clone, Copy, Debug, PartialEq, Eq, Structural)]
pub struct Value {
    pub a: u32,
    pub b: u32,
}

/// The memory-reference view of a raw parameter.
#[derive(Debug)]
pub struct Memref {
    /// The shared bytes the pointer refers to; `None` is a null pointer.
    pub buffer: Option<Vec<u8>>,
    /// The size field: set by the host, updated by the TA for output.
    pub size: usize,
}

/// A raw `TEE_Param`.
#[derive(Debug)]
pub struct TeeParam {
    pub value: Value,
    pub memref: Memref,
}

impl TeeParam {
    /// The condition the TEE core guarantees for a delivered parameter: a
    /// non-null memory reference covers exactly `size` shared bytes.
    pub open spec fn wf(&self) -> bool {
        self.memref.buffer matches Some(b) ==> b@.len() == self.memref.size
    }

    /// A parameter that carries a value pair.
    pub fn new_value(a: u32, b: u32) -> (p: TeeParam)
        ensures
            p.value == (Value { a, b }),
            p.memref.buffer is None,
            p.memref.size == 0,
            p.wf(),
    {
        TeeParam { value: Value { a, b }, memref: Memref { buffer: None, size: 0 } }
    }

    /// A parameter that carries a memory reference to `buffer` (or a null
    /// pointer) with the given size field.
    pub fn new_memref(buffer: Option<Vec<u8>>, size: usize) -> (p: TeeParam)
        ensures
            p.value == (Value { a: 0, b: 0 }),
            p.memref.buffer == buffer,
            p.memref.size == size,
    {
        TeeParam { value: Value { a: 0, b: 0 }, memref: Memref { buffer, size } }
    }
}

/// The 4-bit type tag of slot `index` in a packed parameter-type word.
pub open spec fn spec_param_type_get(param_types: u32, index: u32) -> u32 {
    (param_types >> (index * 4)) & 0xfu32
}

/// Extracts the type tag of slot `index` from a packed parameter-type word
/// (`TEE_PARAM_TYPE_GET`).
pub fn tee_param_type_get(param_types: u32, index: u32) -> (t: u32)
    requires
        index < 8,
    ensures
        t == spec_param_type_get(param_types, index),
        t < 16,
{
    let t = (param_types >> (index * 4)) & 0xfu32;
    assert(t < 16) by (bit_vector)
        requires
            t == (param_types >> (index * 4)) & 0xfu32,
    ;
    t
}

} // verus!
