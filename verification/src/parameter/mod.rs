//! Conversion of raw TEE parameters into typed wrappers.
//!
//! A TA entry point receives four raw parameters and one packed type word
//! whose 4-bit slots tag each parameter. The typed wrappers ([`value`],
//! [`memref`], [`none`]) check the tag of their slot before they accept a
//! parameter; [`ParameterAny`] dispatches on the tag at run time; the
//! [`deprecated`] module keeps the older untyped accessors.
use vstd::prelude::*;

use crate::error::{Error, ErrorKind, Result, err_of};
use crate::raw::{
    TeeParam, spec_param_type_get, tee_param_type_get, TEE_PARAM_TYPE_MEMREF_INOUT,
    TEE_PARAM_TYPE_MEMREF_INPUT, TEE_PARAM_TYPE_MEMREF_OUTPUT, TEE_PARAM_TYPE_NONE,
    TEE_PARAM_TYPE_VALUE_INOUT, TEE_PARAM_TYPE_VALUE_INPUT, TEE_PARAM_TYPE_VALUE_OUTPUT,
};

pub mod deprecated;
pub mod memref;
pub mod none;
pub mod value;

use memref::{ParameterMemref, ParameterMemrefInout, ParameterMemrefInput, ParameterMemrefOutput};
use none::ParameterNone;
use value::{ParameterValueInout, ParameterValueInput, ParameterValueOutput};

verus! {

/// Raw parameter-type tag of one slot.
pub type RawParamType = u32;

/// Packed type word of all four slots.
pub type RawParamTypes = u32;

/// The four raw parameters of one entry-point invocation.
pub type RawParams = (TeeParam, TeeParam, TeeParam, TeeParam);

/// All four raw parameters satisfy the guarantee of the TEE core.
pub open spec fn raw_params_wf(p: RawParams) -> bool {
    p.0.wf() && p.1.wf() && p.2.wf() && p.3.wf()
}

/// Conversion of one raw parameter into a typed wrapper.
pub trait FromRawParameter: Sized {
    /// What [`FromRawParameter::from_raw`] gives for a tag and a parameter.
    spec fn decode(raw_type: RawParamType, raw_param: TeeParam) -> Result<Self>;

    /// Constructs `Self` from a raw parameter, checking its type tag.
    fn from_raw(raw_type: RawParamType, raw_param: TeeParam) -> (r: Result<Self>)
        requires
            raw_param.wf(),
        ensures
            r == Self::decode(raw_type, raw_param),
    ;
}

/// Conversion of the full parameter array into typed wrappers.
pub trait FromRawParameters: Sized {
    /// What [`FromRawParameters::from_raw`] gives for a type word and the
    /// parameters.
    spec fn decode_all(raw_types: RawParamTypes, raw_params: RawParams) -> Result<Self>;

    /// Constructs `Self` from the packed type word and the four parameters.
    fn from_raw(raw_types: RawParamTypes, raw_params: RawParams) -> (r: Result<Self>)
        requires
            raw_params_wf(raw_params),
        ensures
            r == Self::decode_all(raw_types, raw_params),
    ;
}

impl<
    A: FromRawParameter,
    B: FromRawParameter,
    C: FromRawParameter,
    D: FromRawParameter,
> FromRawParameters for (A, B, C, D) {
    /// Slot `i` is decoded with tag `i` of the type word; the first slot
    /// that fails decides the error.
    open spec fn decode_all(raw_types: RawParamTypes, raw_params: RawParams) -> Result<Self> {
        match A::decode(spec_param_type_get(raw_types, 0), raw_params.0) {
            Err(e) => Err(e),
            Ok(a) => match B::decode(spec_param_type_get(raw_types, 1), raw_params.1) {
                Err(e) => Err(e),
                Ok(b) => match C::decode(spec_param_type_get(raw_types, 2), raw_params.2) {
                    Err(e) => Err(e),
                    Ok(c) => match D::decode(spec_param_type_get(raw_types, 3), raw_params.3) {
                        Err(e) => Err(e),
                        Ok(d) => Ok((a, b, c, d)),
                    },
                },
            },
        }
    }

    fn from_raw(raw_types: RawParamTypes, raw_params: RawParams) -> (r: Result<Self>) {
        let (p0, p1, p2, p3) = raw_params;
        let a = match A::from_raw(tee_param_type_get(raw_types, 0), p0) {
            Ok(a) => a,
            Err(e) => return Err(e),
        };
        let b = match B::from_raw(tee_param_type_get(raw_types, 1), p1) {
            Ok(b) => b,
            Err(e) => return Err(e),
        };
        let c = match C::from_raw(tee_param_type_get(raw_types, 2), p2) {
            Ok(c) => c,
            Err(e) => return Err(e),
        };
        let d = match D::from_raw(tee_param_type_get(raw_types, 3), p3) {
            Ok(d) => d,
            Err(e) => return Err(e),
        };
        Ok((a, b, c, d))
    }
}

/// The seven standard parameter types, and any other tag.
#[derive(Clone, Copy, Debug, PartialEq, Eq, Structural)]
pub enum ParamType {
    Unused,
    ValueInput,
    ValueOutput,
    ValueInout,
    MemrefInput,
    MemrefOutput,
    MemrefInout,
    Unknown(u32),
}

impl ParamType {
    /// The type a raw tag denotes.
    pub open spec fn spec_from_tag(tag: u32) -> ParamType {
        if tag == TEE_PARAM_TYPE_NONE {
            ParamType::Unused
        } else if tag == TEE_PARAM_TYPE_VALUE_INPUT {
            ParamType::ValueInput
        } else if tag == TEE_PARAM_TYPE_VALUE_OUTPUT {
            ParamType::ValueOutput
        } else if tag == TEE_PARAM_TYPE_VALUE_INOUT {
            ParamType::ValueInout
        } else if tag == TEE_PARAM_TYPE_MEMREF_INPUT {
            ParamType::MemrefInput
        } else if tag == TEE_PARAM_TYPE_MEMREF_OUTPUT {
            ParamType::MemrefOutput
        } else if tag == TEE_PARAM_TYPE_MEMREF_INOUT {
            ParamType::MemrefInout
        } else {
            ParamType::Unknown(tag)
        }
    }

    /// The raw tag of a type.
    pub open spec fn spec_tag(self) -> u32 {
        match self {
            ParamType::Unused => TEE_PARAM_TYPE_NONE,
            ParamType::ValueInput => TEE_PARAM_TYPE_VALUE_INPUT,
            ParamType::ValueOutput => TEE_PARAM_TYPE_VALUE_OUTPUT,
            ParamType::ValueInout => TEE_PARAM_TYPE_VALUE_INOUT,
            ParamType::MemrefInput => TEE_PARAM_TYPE_MEMREF_INPUT,
            ParamType::MemrefOutput => TEE_PARAM_TYPE_MEMREF_OUTPUT,
            ParamType::MemrefInout => TEE_PARAM_TYPE_MEMREF_INOUT,
            ParamType::Unknown(t) => t,
        }
    }

    /// Decodes a raw tag; tags outside the seven standard ones become
    /// `Unknown`.
    pub fn from_tag(tag: u32) -> (t: ParamType)
        ensures
            t == Self::spec_from_tag(tag),
    {
        if tag == TEE_PARAM_TYPE_NONE {
            ParamType::Unused
        } else if tag == TEE_PARAM_TYPE_VALUE_INPUT {
            ParamType::ValueInput
        } else if tag == TEE_PARAM_TYPE_VALUE_OUTPUT {
            ParamType::ValueOutput
        } else if tag == TEE_PARAM_TYPE_VALUE_INOUT {
            ParamType::ValueInout
        } else if tag == TEE_PARAM_TYPE_MEMREF_INPUT {
            ParamType::MemrefInput
        } else if tag == TEE_PARAM_TYPE_MEMREF_OUTPUT {
            ParamType::MemrefOutput
        } else if tag == TEE_PARAM_TYPE_MEMREF_INOUT {
            ParamType::MemrefInout
        } else {
            ParamType::Unknown(tag)
        }
    }

    /// The raw tag of this type.
    pub fn tag(self) -> (t: u32)
        ensures
            t == self.spec_tag(),
    {
        match self {
            ParamType::Unused => TEE_PARAM_TYPE_NONE,
            ParamType::ValueInput => TEE_PARAM_TYPE_VALUE_INPUT,
            ParamType::ValueOutput => TEE_PARAM_TYPE_VALUE_OUTPUT,
            ParamType::ValueInout => TEE_PARAM_TYPE_VALUE_INOUT,
            ParamType::MemrefInput => TEE_PARAM_TYPE_MEMREF_INPUT,
            ParamType::MemrefOutput => TEE_PARAM_TYPE_MEMREF_OUTPUT,
            ParamType::MemrefInout => TEE_PARAM_TYPE_MEMREF_INOUT,
            ParamType::Unknown(t) => t,
        }
    }
}

/// Decoding a tag and encoding the result gives the tag back, for every tag.
pub proof fn lemma_tag_roundtrip(tag: u32)
    ensures
        ParamType::spec_from_tag(tag).spec_tag() == tag,
{
}

/// Encoding a type and decoding the tag gives the type back, for every type
/// but an `Unknown` that carries one of the seven standard tags.
pub proof fn lemma_type_roundtrip(t: ParamType)
    requires
        t matches ParamType::Unknown(x) ==> ParamType::spec_from_tag(x) is Unknown,
    ensures
        ParamType::spec_from_tag(t.spec_tag()) == t,
{
}

/// What [`check_type_is`] gives.
pub open spec fn spec_check_type_is(raw_type: RawParamType, exp_type: ParamType) -> Result<()> {
    if raw_type != exp_type.spec_tag() {
        err_of(ErrorKind::BadParameters)
    } else {
        Ok(())
    }
}

/// Accepts `raw_type` only if it is the tag of `exp_type`.
pub fn check_type_is(raw_type: RawParamType, exp_type: ParamType) -> (r: Result<()>)
    ensures
        r == spec_check_type_is(raw_type, exp_type),
{
    let exp_tag = exp_type.tag();
    if raw_type != exp_tag {
        return Err(Error::new(ErrorKind::BadParameters));
    }
    Ok(())
}

/// A parameter whose type is decided at run time by its tag.
pub enum ParameterAny {
    Unused,
    ValueInput(ParameterValueInput),
    ValueInout(ParameterValueInout),
    ValueOutput(ParameterValueOutput),
    MemrefInput(ParameterMemrefInput),
    MemrefInout(ParameterMemrefInout),
    MemrefOutput(ParameterMemrefOutput),
    /// An unrecognized tag, with the raw parameter for the caller to handle.
    Unknown(RawParamType, TeeParam),
}

/// What [`ParameterAny::from_raw`] gives for a memory-reference tag: a null
/// pointer is rejected.
pub open spec fn spec_any_memref(raw_param: TeeParam, wrapped: ParameterAny) -> Result<ParameterAny> {
    if raw_param.memref.buffer is None {
        err_of(ErrorKind::BadParameters)
    } else {
        Ok(wrapped)
    }
}

impl ParameterAny {
    /// The value input parameter, or `BadParameters` for any other variant.
    pub fn as_value_input(&self) -> (r: Result<&ParameterValueInput>)
        ensures
            (r is Ok) == (*self is ValueInput),
            r matches Ok(p) ==> *p == self->ValueInput_0,
            r is Err ==> r == err_of::<&ParameterValueInput>(ErrorKind::BadParameters),
    {
        match self {
            ParameterAny::ValueInput(p) => Ok(p),
            _ => Err(Error::new(ErrorKind::BadParameters)),
        }
    }

    /// The value output parameter, or `BadParameters` (and no change) for
    /// any other variant.
    pub fn as_value_output(&mut self) -> (r: Result<&mut ParameterValueOutput>)
        ensures
            (r is Ok) == (*old(self) is ValueOutput),
            r matches Ok(p) ==> *p == old(self)->ValueOutput_0
                && *final(self) == ParameterAny::ValueOutput(*final(p)),
            r is Err ==> *final(self) == *old(self)
                && r == err_of::<&mut ParameterValueOutput>(ErrorKind::BadParameters),
    {
        match self {
            ParameterAny::ValueOutput(p) => Ok(p),
            _ => Err(Error::new(ErrorKind::BadParameters)),
        }
    }

    /// The value in/out parameter, or `BadParameters` (and no change) for
    /// any other variant.
    pub fn as_value_inout(&mut self) -> (r: Result<&mut ParameterValueInout>)
        ensures
            (r is Ok) == (*old(self) is ValueInout),
            r matches Ok(p) ==> *p == old(self)->ValueInout_0
                && *final(self) == ParameterAny::ValueInout(*final(p)),
            r is Err ==> *final(self) == *old(self)
                && r == err_of::<&mut ParameterValueInout>(ErrorKind::BadParameters),
    {
        match self {
            ParameterAny::ValueInout(p) => Ok(p),
            _ => Err(Error::new(ErrorKind::BadParameters)),
        }
    }

    /// The memory-reference input parameter, or `BadParameters` for any
    /// other variant.
    pub fn as_memref_input(&self) -> (r: Result<&ParameterMemrefInput>)
        ensures
            (r is Ok) == (*self is MemrefInput),
            r matches Ok(p) ==> *p == self->MemrefInput_0,
            r is Err ==> r == err_of::<&ParameterMemrefInput>(ErrorKind::BadParameters),
    {
        match self {
            ParameterAny::MemrefInput(p) => Ok(p),
            _ => Err(Error::new(ErrorKind::BadParameters)),
        }
    }

    /// The memory-reference in/out parameter, or `BadParameters` (and no
    /// change) for any other variant.
    pub fn as_memref_inout(&mut self) -> (r: Result<&mut ParameterMemrefInout>)
        ensures
            (r is Ok) == (*old(self) is MemrefInout),
            r matches Ok(p) ==> *p == old(self)->MemrefInout_0
                && *final(self) == ParameterAny::MemrefInout(*final(p)),
            r is Err ==> *final(self) == *old(self)
                && r == err_of::<&mut ParameterMemrefInout>(ErrorKind::BadParameters),
    {
        match self {
            ParameterAny::MemrefInout(p) => Ok(p),
            _ => Err(Error::new(ErrorKind::BadParameters)),
        }
    }

    /// The memory-reference output parameter, or `BadParameters` (and no
    /// change) for any other variant.
    pub fn as_memref_output(&mut self) -> (r: Result<&mut ParameterMemrefOutput>)
        ensures
            (r is Ok) == (*old(self) is MemrefOutput),
            r matches Ok(p) ==> *p == old(self)->MemrefOutput_0
                && *final(self) == ParameterAny::MemrefOutput(*final(p)),
            r is Err ==> *final(self) == *old(self)
                && r == err_of::<&mut ParameterMemrefOutput>(ErrorKind::BadParameters),
    {
        match self {
            ParameterAny::MemrefOutput(p) => Ok(p),
            _ => Err(Error::new(ErrorKind::BadParameters)),
        }
    }

    /// `Ok` for an unused slot, `BadParameters` for any other variant.
    pub fn as_none(&self) -> (r: Result<()>)
        ensures
            (r is Ok) == (*self is Unused),
            r is Err ==> r == err_of::<()>(ErrorKind::BadParameters),
    {
        match self {
            ParameterAny::Unused => Ok(()),
            _ => Err(Error::new(ErrorKind::BadParameters)),
        }
    }
}

impl FromRawParameter for ParameterAny {
    /// The tag picks the variant; a memory reference with a null pointer is
    /// rejected; an unrecognized tag keeps the raw parameter.
    open spec fn decode(raw_type: RawParamType, raw_param: TeeParam) -> Result<Self> {
        if raw_type == TEE_PARAM_TYPE_NONE {
            Ok(ParameterAny::Unused)
        } else if raw_type == TEE_PARAM_TYPE_VALUE_INPUT {
            Ok(ParameterAny::ValueInput(ParameterValueInput::spec_wrap(raw_param)))
        } else if raw_type == TEE_PARAM_TYPE_VALUE_INOUT {
            Ok(ParameterAny::ValueInout(ParameterValueInout::spec_wrap(raw_param)))
        } else if raw_type == TEE_PARAM_TYPE_VALUE_OUTPUT {
            Ok(ParameterAny::ValueOutput(ParameterValueOutput::spec_wrap(raw_param)))
        } else if raw_type == TEE_PARAM_TYPE_MEMREF_INPUT {
            spec_any_memref(raw_param, ParameterAny::MemrefInput(ParameterMemrefInput::spec_wrap(raw_param)))
        } else if raw_type == TEE_PARAM_TYPE_MEMREF_INOUT {
            spec_any_memref(raw_param, ParameterAny::MemrefInout(ParameterMemrefInout::spec_wrap(raw_param)))
        } else if raw_type == TEE_PARAM_TYPE_MEMREF_OUTPUT {
            spec_any_memref(raw_param, ParameterAny::MemrefOutput(ParameterMemrefOutput::spec_wrap(raw_param)))
        } else {
            Ok(ParameterAny::Unknown(raw_type, raw_param))
        }
    }

    fn from_raw(raw_type: RawParamType, raw_param: TeeParam) -> (r: Result<Self>) {
        if raw_type == TEE_PARAM_TYPE_NONE {
            Ok(ParameterAny::Unused)
        } else if raw_type == TEE_PARAM_TYPE_VALUE_INPUT {
            match ParameterValueInput::from_raw(raw_type, raw_param) {
                Ok(p) => Ok(ParameterAny::ValueInput(p)),
                Err(e) => Err(e),
            }
        } else if raw_type == TEE_PARAM_TYPE_VALUE_INOUT {
            match ParameterValueInout::from_raw(raw_type, raw_param) {
                Ok(p) => Ok(ParameterAny::ValueInout(p)),
                Err(e) => Err(e),
            }
        } else if raw_type == TEE_PARAM_TYPE_VALUE_OUTPUT {
            match ParameterValueOutput::from_raw(raw_type, raw_param) {
                Ok(p) => Ok(ParameterAny::ValueOutput(p)),
                Err(e) => Err(e),
            }
        } else if raw_type == TEE_PARAM_TYPE_MEMREF_INPUT {
            match ParameterMemrefInput::from_raw(raw_type, raw_param) {
                Ok(p) => Ok(ParameterAny::MemrefInput(p)),
                Err(e) => Err(e),
            }
        } else if raw_type == TEE_PARAM_TYPE_MEMREF_INOUT {
            match ParameterMemrefInout::from_raw(raw_type, raw_param) {
                Ok(p) => Ok(ParameterAny::MemrefInout(p)),
                Err(e) => Err(e),
            }
        } else if raw_type == TEE_PARAM_TYPE_MEMREF_OUTPUT {
            match ParameterMemrefOutput::from_raw(raw_type, raw_param) {
                Ok(p) => Ok(ParameterAny::MemrefOutput(p)),
                Err(e) => Err(e),
            }
        } else {
            Ok(ParameterAny::Unknown(raw_type, raw_param))
        }
    }
}

/// Run-time dispatch agrees with the typed wrappers: for the type a tag
/// denotes, `ParameterAny` accepts exactly what that type's wrapper
/// accepts, as the variant of that type holding the same wrapper, and fails
/// with the wrapper's error otherwise; a tag of no standard type is kept
/// with its raw parameter.
pub proof fn lemma_any_agrees_with_typed(raw_type: RawParamType, raw_param: TeeParam)
    ensures
        ({
            let any = <ParameterAny as FromRawParameter>::decode(raw_type, raw_param);
            match ParamType::spec_from_tag(raw_type) {
                ParamType::Unused => (<ParameterNone as FromRawParameter>::decode(raw_type, raw_param) is Ok)
                    && any == Ok::<ParameterAny, Error>(ParameterAny::Unused),
                ParamType::ValueInput => match <ParameterValueInput as FromRawParameter>::decode(raw_type, raw_param) {
                    Ok(w) => any == Ok::<ParameterAny, Error>(ParameterAny::ValueInput(w)),
                    Err(e) => any == Err::<ParameterAny, Error>(e),
                },
                ParamType::ValueOutput => match <ParameterValueOutput as FromRawParameter>::decode(raw_type, raw_param) {
                    Ok(w) => any == Ok::<ParameterAny, Error>(ParameterAny::ValueOutput(w)),
                    Err(e) => any == Err::<ParameterAny, Error>(e),
                },
                ParamType::ValueInout => match <ParameterValueInout as FromRawParameter>::decode(raw_type, raw_param) {
                    Ok(w) => any == Ok::<ParameterAny, Error>(ParameterAny::ValueInout(w)),
                    Err(e) => any == Err::<ParameterAny, Error>(e),
                },
                ParamType::MemrefInput => match <ParameterMemrefInput as FromRawParameter>::decode(raw_type, raw_param) {
                    Ok(w) => any == Ok::<ParameterAny, Error>(ParameterAny::MemrefInput(w)),
                    Err(e) => any == Err::<ParameterAny, Error>(e),
                },
                ParamType::MemrefOutput => match <ParameterMemrefOutput as FromRawParameter>::decode(raw_type, raw_param) {
                    Ok(w) => any == Ok::<ParameterAny, Error>(ParameterAny::MemrefOutput(w)),
                    Err(e) => any == Err::<ParameterAny, Error>(e),
                },
                ParamType::MemrefInout => match <ParameterMemrefInout as FromRawParameter>::decode(raw_type, raw_param) {
                    Ok(w) => any == Ok::<ParameterAny, Error>(ParameterAny::MemrefInout(w)),
                    Err(e) => any == Err::<ParameterAny, Error>(e),
                },
                ParamType::Unknown(t) => t == raw_type && any == Ok::<ParameterAny, Error>(
                    ParameterAny::Unknown(raw_type, raw_param),
                ),
            }
        }),
{
}

/// A memory reference with a non-null buffer and its own tag is accepted
/// by run-time dispatch, holding the buffer's bytes; a null one is not.
pub proof fn lemma_any_memref_accepts_non_null(raw_type: RawParamType, raw_param: TeeParam)
    requires
        raw_type == TEE_PARAM_TYPE_MEMREF_INPUT || raw_type == TEE_PARAM_TYPE_MEMREF_OUTPUT || raw_type
            == TEE_PARAM_TYPE_MEMREF_INOUT,
    ensures
        raw_param.memref.buffer is None ==> <ParameterAny as FromRawParameter>::decode(raw_type, raw_param)
            == err_of::<ParameterAny>(ErrorKind::BadParameters),
        raw_param.memref.buffer is Some ==> match <ParameterAny as FromRawParameter>::decode(raw_type, raw_param) {
            Ok(ParameterAny::MemrefInput(w)) => raw_type == TEE_PARAM_TYPE_MEMREF_INPUT && w.shared()
                == raw_param.memref.buffer->0@,
            Ok(ParameterAny::MemrefOutput(w)) => raw_type == TEE_PARAM_TYPE_MEMREF_OUTPUT && w.shared()
                == raw_param.memref.buffer->0@,
            Ok(ParameterAny::MemrefInout(w)) => raw_type == TEE_PARAM_TYPE_MEMREF_INOUT && w.shared()
                == raw_param.memref.buffer->0@,
            _ => false,
        },
{
    if raw_param.memref.buffer is Some {
        memref::lemma_memref_wrap(raw_param);
    }
}

/// Four slots whose types are decided at run time.
pub type ParametersAny = (ParameterAny, ParameterAny, ParameterAny, ParameterAny);

/// Four unused slots.
pub type ParametersNone = (ParameterNone, ParameterNone, ParameterNone, ParameterNone);

} // verus!
