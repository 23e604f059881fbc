//! The signature checks of the plugin attribute macros.
//!
//! `#[derive_raw_plugin_init]` accepts `fn() -> optee_teec::Result<()>` and
//! `#[derive_raw_plugin_invoke]` accepts
//! `fn(params: &mut optee_teec::PluginParameters) -> optee_teec::Result<()>`,
//! both private, not `const`, without ABI, `where` clause or variadics. A
//! path matches if it is a suffix of the expected one, so `Result` and
//! `optee_teec::Result` both do.
use vstd::prelude::*;

use crate::text::str_eq;

verus! {

/// Whether `path` is a suffix of `expected`.
pub open spec fn spec_path_might_match(path: Seq<Seq<char>>, expected: Seq<Seq<char>>) -> bool {
    path.len() <= expected.len() && forall|i: int|
        0 <= i < path.len() ==> path[i] == expected[expected.len() - path.len() + i]
}

/// Checks whether the segments of a path might name the expected item: the
/// path is a suffix of the expected path. It can still fail when a crate is
/// re-exported under another name.
pub fn check_path_might_match(path: &[String], exp: &[&str]) -> (b: bool)
    ensures
        b == spec_path_might_match(path.deep_view(), exp@.map_values(|e: &str| e@)),
{
    let ghost ex = exp@.map_values(|e: &str| e@);
    let pn = path.len();
    let en = exp.len();
    if pn > en {
        return false;
    }
    let off = en - pn;
    let mut i: usize = 0;
    while i < pn
        invariant
            pn == path@.len(),
            en == exp@.len(),
            off + pn == en,
            i <= pn,
            ex == exp@.map_values(|e: &str| e@),
            forall|k: int| 0 <= k < i ==> path.deep_view()[k] == ex[off + k],
        decreases pn - i,
    {
        if !str_eq(path[i].as_str(), exp[off + i]) {
            assert(path.deep_view()[i as int] != ex[off + i]);
            return false;
        }
        i += 1;
    }
    true
}

/// The shape of a function's single parameter, as far as the checks look.
pub enum ParamShape {
    /// `&mut` of a type path with these segments.
    MutRefToPath(Vec<String>),
    /// Anything else.
    Other,
}

/// What the signature checks look at in an annotated function.
pub struct FnSignature {
    pub is_const: bool,
    /// The visibility is inherited (the function is private).
    pub is_private: bool,
    pub has_abi: bool,
    pub has_where_clause: bool,
    pub is_variadic: bool,
    /// The segments of the return type when it is a type path.
    pub return_path: Option<Vec<String>>,
    pub inputs: Vec<ParamShape>,
}

/// Whether the return type is `optee_teec::Result<..>`.
pub open spec fn spec_returns_result(sig: FnSignature) -> bool {
    match sig.return_path {
        Some(p) => spec_path_might_match(p.deep_view(), seq!["optee_teec"@, "Result"@]),
        None => false,
    }
}

/// The checks common to both macros, apart from the parameters.
pub open spec fn spec_plain_fn(sig: FnSignature) -> bool {
    !sig.is_const && sig.is_private && !sig.has_abi && !sig.has_where_clause && !sig.is_variadic
        && spec_returns_result(sig)
}

fn check_return_type(sig: &FnSignature) -> (b: bool)
    ensures
        b == spec_returns_result(*sig),
{
    proof {
        reveal_strlit("optee_teec");
        reveal_strlit("Result");
    }
    match &sig.return_path {
        Some(p) => {
            let exp = ["optee_teec", "Result"];
            let r = check_path_might_match(p.as_slice(), exp.as_slice());
            assert(exp@.map_values(|e: &str| e@) =~= seq!["optee_teec"@, "Result"@]);
            r
        },
        None => false,
    }
}

/// Whether the signature is accepted by `#[derive_raw_plugin_init]`.
pub fn valid_init_signature(sig: &FnSignature) -> (b: bool)
    ensures
        b == (spec_plain_fn(*sig) && sig.inputs@.len() == 0),
{
    !sig.is_const && sig.is_private && !sig.has_abi && sig.inputs.len() == 0 && !sig.has_where_clause
        && !sig.is_variadic && check_return_type(sig)
}

/// Whether the single parameter is `&mut optee_teec::PluginParameters`.
pub open spec fn spec_invoke_param(sig: FnSignature) -> bool {
    sig.inputs@.len() == 1 && match sig.inputs@[0] {
        ParamShape::MutRefToPath(p) => spec_path_might_match(
            p.deep_view(),
            seq!["optee_teec"@, "PluginParameters"@],
        ),
        ParamShape::Other => false,
    }
}

fn check_invoke_fn_params(sig: &FnSignature) -> (b: bool)
    ensures
        b == spec_invoke_param(*sig),
{
    if sig.inputs.len() != 1 {
        return false;
    }
    proof {
        reveal_strlit("optee_teec");
        reveal_strlit("PluginParameters");
    }
    match &sig.inputs[0] {
        ParamShape::MutRefToPath(p) => {
            let exp = ["optee_teec", "PluginParameters"];
            let r = check_path_might_match(p.as_slice(), exp.as_slice());
            assert(exp@.map_values(|e: &str| e@) =~= seq!["optee_teec"@, "PluginParameters"@]);
            r
        },
        ParamShape::Other => false,
    }
}

/// Whether the signature is accepted by `#[derive_raw_plugin_invoke]`.
pub fn valid_invoke_signature(sig: &FnSignature) -> (b: bool)
    ensures
        b == (spec_plain_fn(*sig) && spec_invoke_param(*sig)),
{
    !sig.is_const && sig.is_private && !sig.has_abi && sig.inputs.len() == 1 && !sig.has_where_clause
        && !sig.is_variadic && check_return_type(sig) && check_invoke_fn_params(sig)
}

} // verus!
