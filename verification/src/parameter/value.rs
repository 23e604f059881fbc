//! Typed wrappers for value parameters: two 32-bit registers.
use vstd::prelude::*;

use super::{check_type_is, spec_check_type_is, FromRawParameter, ParamType, RawParamType};
use crate::error::{Error, Result};
use crate::raw::{TeeParam, Value};

verus! {

/// The register pair of a value parameter.
pub trait ParameterValue {
    /// The current register pair.
    spec fn registers(&self) -> Value;
}

/// Reading the registers (input and in/out parameters).
pub trait ParameterValueRead: ParameterValue {
    /// The first register.
    fn get_a(&self) -> (a: u32)
        ensures
            a == self.registers().a,
    ;

    /// The second register.
    fn get_b(&self) -> (b: u32)
        ensures
            b == self.registers().b,
    ;
}

/// Writing the registers (output and in/out parameters).
pub trait ParameterValueWrite: ParameterValue {
    /// Sets the first register.
    fn set_a(&mut self, a: u32)
        ensures
            final(self).registers() == (Value { a, b: old(self).registers().b }),
    ;

    /// Sets the second register.
    fn set_b(&mut self, b: u32)
        ensures
            final(self).registers() == (Value { a: old(self).registers().a, b }),
    ;
}

/// A value input parameter: the host passes two registers for the TA to
/// read.
#[derive(Clone, Copy, Debug)]
pub struct ParameterValueInput {
    value: Value,
}

/// A value in/out parameter: the TA reads and writes the registers.
pub struct ParameterValueInout {
    raw_param: TeeParam,
}

/// A value output parameter: the TA writes the registers back to the host.
pub struct ParameterValueOutput {
    raw_param: TeeParam,
}

impl ParameterValueInput {
    /// The wrapper that holds a given raw parameter.
    pub closed spec fn spec_wrap(raw_param: TeeParam) -> Self {
        ParameterValueInput { value: raw_param.value }
    }
}

impl ParameterValueInout {
    /// The wrapper that holds a given raw parameter.
    pub closed spec fn spec_wrap(raw_param: TeeParam) -> Self {
        ParameterValueInout { raw_param }
    }

    /// The raw parameter as it now stands.
    pub closed spec fn spec_raw(self) -> TeeParam {
        self.raw_param
    }

    /// Gives the raw parameter back, with the registers as written.
    pub fn into_raw(self) -> (p: TeeParam)
        ensures
            p == self.spec_raw(),
            p.value == self.registers(),
    {
        self.raw_param
    }
}

impl ParameterValueOutput {
    /// The wrapper that holds a given raw parameter.
    pub closed spec fn spec_wrap(raw_param: TeeParam) -> Self {
        ParameterValueOutput { raw_param }
    }

    /// The raw parameter as it now stands.
    pub closed spec fn spec_raw(self) -> TeeParam {
        self.raw_param
    }

    /// Gives the raw parameter back, with the registers as written.
    pub fn into_raw(self) -> (p: TeeParam)
        ensures
            p == self.spec_raw(),
            p.value == self.registers(),
    {
        self.raw_param
    }
}

/// A wrapper made from a raw value parameter holds its registers.
pub proof fn lemma_value_wrap(raw_param: TeeParam)
    ensures
        ParameterValueInput::spec_wrap(raw_param).registers() == raw_param.value,
        ParameterValueInout::spec_wrap(raw_param).registers() == raw_param.value,
        ParameterValueOutput::spec_wrap(raw_param).registers() == raw_param.value,
{
}

impl FromRawParameter for ParameterValueInput {
    open spec fn decode(raw_type: RawParamType, raw_param: TeeParam) -> Result<Self> {
        match spec_check_type_is(raw_type, ParamType::ValueInput) {
            Err(e) => Err(e),
            Ok(()) => Ok(Self::spec_wrap(raw_param)),
        }
    }

    /// On success the wrapper holds the registers of the raw parameter.
    fn from_raw(raw_type: RawParamType, raw_param: TeeParam) -> (r: Result<Self>)
        ensures
            r matches Ok(p) ==> p.registers() == raw_param.value,
    {
        match check_type_is(raw_type, ParamType::ValueInput) {
            Ok(()) => Ok(ParameterValueInput { value: raw_param.value }),
            Err(e) => Err(e),
        }
    }
}

impl FromRawParameter for ParameterValueInout {
    open spec fn decode(raw_type: RawParamType, raw_param: TeeParam) -> Result<Self> {
        match spec_check_type_is(raw_type, ParamType::ValueInout) {
            Err(e) => Err(e),
            Ok(()) => Ok(Self::spec_wrap(raw_param)),
        }
    }

    /// On success the wrapper holds the registers of the raw parameter.
    fn from_raw(raw_type: RawParamType, raw_param: TeeParam) -> (r: Result<Self>)
        ensures
            r matches Ok(p) ==> p.registers() == raw_param.value,
    {
        match check_type_is(raw_type, ParamType::ValueInout) {
            Ok(()) => Ok(ParameterValueInout { raw_param }),
            Err(e) => Err(e),
        }
    }
}

impl FromRawParameter for ParameterValueOutput {
    open spec fn decode(raw_type: RawParamType, raw_param: TeeParam) -> Result<Self> {
        match spec_check_type_is(raw_type, ParamType::ValueOutput) {
            Err(e) => Err(e),
            Ok(()) => Ok(Self::spec_wrap(raw_param)),
        }
    }

    /// On success the wrapper holds the registers of the raw parameter.
    fn from_raw(raw_type: RawParamType, raw_param: TeeParam) -> (r: Result<Self>)
        ensures
            r matches Ok(p) ==> p.registers() == raw_param.value,
    {
        match check_type_is(raw_type, ParamType::ValueOutput) {
            Ok(()) => Ok(ParameterValueOutput { raw_param }),
            Err(e) => Err(e),
        }
    }
}

impl ParameterValue for ParameterValueInput {
    closed spec fn registers(&self) -> Value {
        self.value
    }
}

impl ParameterValue for ParameterValueInout {
    closed spec fn registers(&self) -> Value {
        self.raw_param.value
    }
}

impl ParameterValue for ParameterValueOutput {
    closed spec fn registers(&self) -> Value {
        self.raw_param.value
    }
}

impl ParameterValueRead for ParameterValueInput {
    fn get_a(&self) -> (a: u32) {
        self.value.a
    }

    fn get_b(&self) -> (b: u32) {
        self.value.b
    }
}

impl ParameterValueRead for ParameterValueInout {
    fn get_a(&self) -> (a: u32) {
        self.raw_param.value.a
    }

    fn get_b(&self) -> (b: u32) {
        self.raw_param.value.b
    }
}

impl ParameterValueWrite for ParameterValueInout {
    fn set_a(&mut self, a: u32) {
        self.raw_param.value.a = a;
    }

    fn set_b(&mut self, b: u32) {
        self.raw_param.value.b = b;
    }
}

impl ParameterValueWrite for ParameterValueOutput {
    fn set_a(&mut self, a: u32) {
        self.raw_param.value.a = a;
    }

    fn set_b(&mut self, b: u32) {
        self.raw_param.value.b = b;
    }
}

} // verus!
