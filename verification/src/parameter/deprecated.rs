//! The older untyped parameter API, kept for transitional code.
//!
//! New code should use the typed wrappers with
//! [`FromRawParameters`](super::FromRawParameters): they encode the
//! parameter direction in the type and check it once, up front.
use vstd::prelude::*;

use super::{FromRawParameters, ParamType, RawParamTypes, RawParams};
use crate::error::{err_of, Error, ErrorKind, Result};
use crate::raw::{spec_param_type_get, Memref, TeeParam, Value};

verus! {

/// The four parameters, each with the type its slot of the type word
/// gives.
pub struct Parameters(pub Parameter, pub Parameter, pub Parameter, pub Parameter);

impl Parameters {
    /// Pairs each raw parameter with the type of its slot.
    pub fn from_raw(tee_params: RawParams, param_types: u32) -> (r: Self)
        ensures
            r.0.raw == tee_params.0,
            r.1.raw == tee_params.1,
            r.2.raw == tee_params.2,
            r.3.raw == tee_params.3,
            r.0.param_type == ParamType::spec_from_tag(spec_param_type_get(param_types, 0)),
            r.1.param_type == ParamType::spec_from_tag(spec_param_type_get(param_types, 1)),
            r.2.param_type == ParamType::spec_from_tag(spec_param_type_get(param_types, 2)),
            r.3.param_type == ParamType::spec_from_tag(spec_param_type_get(param_types, 3)),
    {
        let (f0, f1, f2, f3) = ParamTypes::from(param_types).into_flags();
        let (t0, t1, t2, t3) = tee_params;
        let p0 = Parameter::from_raw(t0, f0);
        let p1 = Parameter::from_raw(t1, f1);
        let p2 = Parameter::from_raw(t2, f2);
        let p3 = Parameter::from_raw(t3, f3);
        Parameters(p0, p1, p2, p3)
    }
}

/// Access to the registers of a value parameter.
pub struct ParamValue<'parameter> {
    pub raw: &'parameter mut Value,
    pub param_type: ParamType,
}

impl<'parameter> ParamValue<'parameter> {
    /// The first register.
    pub fn a(&self) -> (a: u32)
        ensures
            a == old(self.raw).a,
    {
        self.raw.a
    }

    /// The second register.
    pub fn b(&self) -> (b: u32)
        ensures
            b == old(self.raw).b,
    {
        self.raw.b
    }

    /// Sets the first register.
    pub fn set_a(&mut self, a: u32)
        ensures
            *final(self).raw == (Value { a, b: old(self).raw.b }),
            final(self).param_type == old(self).param_type,
            *final(final(self).raw) == *final(old(self).raw),
    {
        self.raw.a = a;
    }

    /// Sets the second register.
    pub fn set_b(&mut self, b: u32)
        ensures
            *final(self).raw == (Value { a: old(self).raw.a, b }),
            final(self).param_type == old(self).param_type,
            *final(final(self).raw) == *final(old(self).raw),
    {
        self.raw.b = b;
    }

    /// The type of the parameter.
    pub fn param_type(&self) -> (t: ParamType)
        ensures
            t == self.param_type,
    {
        self.param_type
    }
}

/// Access to a memory-reference parameter.
pub struct ParamMemref<'parameter> {
    pub raw: &'parameter mut Memref,
    pub param_type: ParamType,
}

impl<'parameter> ParamMemref<'parameter> {
    /// The first `size` bytes of the shared buffer, for reading and writing
    /// in place. The pointer must not be null and the size field must not
    /// exceed the buffer. New code should use the copying accessors of the
    /// typed wrappers instead.
    pub fn buffer(&mut self) -> (b: &mut [u8])
        requires
            old(self).raw.buffer is Some,
            old(self).raw.size <= old(self).raw.buffer->0@.len(),
        ensures
            b@ == old(self).raw.buffer->0@.take(old(self).raw.size as int),
            final(self).param_type == old(self).param_type,
            final(self).raw.size == old(self).raw.size,
            final(self).raw.buffer is Some,
            final(self).raw.buffer->0@ == final(b)@ + old(self).raw.buffer->0@.skip(
                old(self).raw.size as int,
            ),
            *final(final(self).raw) == *final(old(self).raw),
    {
        let size = self.raw.size;
        let v = self.raw.buffer.as_mut().unwrap();
        let (head, _tail) = v.as_mut_slice().split_at_mut(size);
        head
    }

    /// The type of the parameter.
    pub fn param_type(&self) -> (t: ParamType)
        ensures
            t == self.param_type,
    {
        self.param_type
    }

    /// The raw memory reference.
    pub fn raw(&mut self) -> (m: &mut Memref)
        ensures
            *m == *old(self).raw,
            *final(self).raw == *final(m),
            final(self).param_type == old(self).param_type,
            *final(final(self).raw) == *final(old(self).raw),
    {
        &mut *self.raw
    }

    /// Sets the size field reported back to the host, without a bounds
    /// check.
    pub fn set_updated_size(&mut self, size: usize)
        ensures
            final(self).raw.size == size,
            final(self).raw.buffer == old(self).raw.buffer,
            final(self).param_type == old(self).param_type,
            *final(final(self).raw) == *final(old(self).raw),
    {
        self.raw.size = size;
    }
}

/// A raw parameter with the type its slot was given.
pub struct Parameter {
    pub raw: TeeParam,
    pub param_type: ParamType,
}

/// Whether a type is one of the three value types.
pub open spec fn is_value_type(t: ParamType) -> bool {
    t is ValueInput || t is ValueInout || t is ValueOutput
}

/// Whether a type is one of the three memory-reference types.
pub open spec fn is_memref_type(t: ParamType) -> bool {
    t is MemrefInput || t is MemrefInout || t is MemrefOutput
}

impl Parameter {
    /// Pairs a raw parameter with its type.
    pub fn from_raw(raw: TeeParam, param_type: ParamType) -> (p: Self)
        ensures
            p.raw == raw,
            p.param_type == param_type,
    {
        Parameter { raw, param_type }
    }

    /// The value view, for a parameter of a value type; `BadParameters`
    /// otherwise.
    pub fn as_value(&mut self) -> (r: Result<ParamValue<'_>>)
        ensures
            (r is Ok) == is_value_type(old(self).param_type),
            r matches Ok(v) ==> *v.raw == old(self).raw.value
                && v.param_type == old(self).param_type
                && final(self).raw.value == *final(v.raw)
                && final(self).raw.memref == old(self).raw.memref
                && final(self).param_type == old(self).param_type,
            r is Err ==> *final(self) == *old(self),
    {
        match self.param_type {
            ParamType::ValueInput | ParamType::ValueInout | ParamType::ValueOutput => {
                let param_type = self.param_type;
                Ok(ParamValue { raw: &mut self.raw.value, param_type })
            },
            _ => Err(Error::new(ErrorKind::BadParameters)),
        }
    }

    /// The memory-reference view, for a parameter of a memory-reference
    /// type; `BadParameters` otherwise.
    pub fn as_memref(&mut self) -> (r: Result<ParamMemref<'_>>)
        ensures
            (r is Ok) == is_memref_type(old(self).param_type),
            r matches Ok(m) ==> *m.raw == old(self).raw.memref
                && m.param_type == old(self).param_type
                && final(self).raw.memref == *final(m.raw)
                && final(self).raw.value == old(self).raw.value
                && final(self).param_type == old(self).param_type,
            r is Err ==> *final(self) == *old(self),
    {
        match self.param_type {
            ParamType::MemrefInout | ParamType::MemrefInput | ParamType::MemrefOutput => {
                let param_type = self.param_type;
                Ok(ParamMemref { raw: &mut self.raw.memref, param_type })
            },
            _ => Err(Error::new(ErrorKind::BadParameters)),
        }
    }

    /// The raw parameter.
    pub fn raw(&self) -> (p: &TeeParam)
        ensures
            *p == self.raw,
    {
        &self.raw
    }
}

/// A packed parameter-type word.
pub struct ParamTypes(u32);

impl ParamTypes {
    /// The packed word.
    pub closed spec fn word(&self) -> u32 {
        self.0
    }

    /// The types of the four slots, lowest nibble first.
    pub fn into_flags(&self) -> (r: (ParamType, ParamType, ParamType, ParamType))
        ensures
            r.0 == ParamType::spec_from_tag(spec_param_type_get(self.word(), 0)),
            r.1 == ParamType::spec_from_tag(spec_param_type_get(self.word(), 1)),
            r.2 == ParamType::spec_from_tag(spec_param_type_get(self.word(), 2)),
            r.3 == ParamType::spec_from_tag(spec_param_type_get(self.word(), 3)),
    {
        let w = self.0;
        proof {
            lemma_nibbles(w);
        }
        (
            ParamType::from_tag(0x000fu32 & w),
            ParamType::from_tag((0x00f0u32 & w) >> 4),
            ParamType::from_tag((0x0f00u32 & w) >> 8),
            ParamType::from_tag((0xf000u32 & w) >> 12),
        )
    }
}

/// The deprecated per-slot types are read from the same nibbles of the
/// type word as the typed decoding reads: masking a nibble and shifting it
/// down is shifting the word and masking the low nibble.
pub proof fn lemma_nibbles(w: u32)
    ensures
        0x000fu32 & w == spec_param_type_get(w, 0),
        (0x00f0u32 & w) >> 4 == spec_param_type_get(w, 1),
        (0x0f00u32 & w) >> 8 == spec_param_type_get(w, 2),
        (0xf000u32 & w) >> 12 == spec_param_type_get(w, 3),
{
    assert(0x000fu32 & w == (w >> 0u32) & 0xfu32) by (bit_vector);
    assert((0x00f0u32 & w) >> 4 == (w >> 4u32) & 0xfu32) by (bit_vector);
    assert((0x0f00u32 & w) >> 8 == (w >> 8u32) & 0xfu32) by (bit_vector);
    assert((0xf000u32 & w) >> 12 == (w >> 12u32) & 0xfu32) by (bit_vector);
}

impl From<u32> for ParamTypes {
    /// The packed word `value`.
    fn from(value: u32) -> (r: ParamTypes)
        ensures
            r.word() == value,
    {
        ParamTypes(value)
    }
}

impl vstd::std_specs::convert::FromSpecImpl<u32> for ParamTypes {
    open spec fn obeys_from_spec() -> bool {
        true
    }

    closed spec fn from_spec(v: u32) -> ParamTypes {
        ParamTypes(v)
    }
}

impl FromRawParameters for Parameters {
    open spec fn decode_all(raw_types: RawParamTypes, raw_params: RawParams) -> Result<Self> {
        Ok(
            Parameters(
                Parameter {
                    raw: raw_params.0,
                    param_type: ParamType::spec_from_tag(spec_param_type_get(raw_types, 0)),
                },
                Parameter {
                    raw: raw_params.1,
                    param_type: ParamType::spec_from_tag(spec_param_type_get(raw_types, 1)),
                },
                Parameter {
                    raw: raw_params.2,
                    param_type: ParamType::spec_from_tag(spec_param_type_get(raw_types, 2)),
                },
                Parameter {
                    raw: raw_params.3,
                    param_type: ParamType::spec_from_tag(spec_param_type_get(raw_types, 3)),
                },
            ),
        )
    }

    fn from_raw(raw_types: RawParamTypes, raw_params: RawParams) -> (r: Result<Self>) {
        Ok(Parameters::from_raw(raw_params, raw_types))
    }
}

} // verus!
