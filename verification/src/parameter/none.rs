//! The wrapper for an unused parameter slot.
use vstd::prelude::*;

use super::{check_type_is, spec_check_type_is, FromRawParameter, ParamType, RawParamType};
use crate::error::Result;
use crate::raw::TeeParam;

verus! {

/// A slot that carries no parameter.
#[derive(Clone, Copy, Debug, PartialEq, Eq, Structural)]
pub struct ParameterNone;

impl FromRawParameter for ParameterNone {
    open spec fn decode(raw_type: RawParamType, raw_param: TeeParam) -> Result<Self> {
        match spec_check_type_is(raw_type, ParamType::Unused) {
            Err(e) => Err(e),
            Ok(()) => Ok(ParameterNone),
        }
    }

    fn from_raw(raw_type: RawParamType, raw_param: TeeParam) -> (r: Result<Self>) {
        match check_type_is(raw_type, ParamType::Unused) {
            Ok(()) => Ok(ParameterNone),
            Err(e) => Err(e),
        }
    }
}

} // verus!
