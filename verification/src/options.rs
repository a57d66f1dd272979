//! Strongly typed pipeline options and their decoding from a loosely typed
//! host configuration.
//!
//! The host hands configuration values over a dynamic boundary; every
//! recognized key is decoded by an explicit, total function that branches on
//! the dynamic value's kind and fails loudly on any shape it does not list.
//! Implicit truthiness coercion is forbidden.

use vstd::prelude::*;
use vstd::string::StringExecFns;
use crate::errors::{dec_int_str, i32_dec, TransformError};
use crate::source_type::str_eq;

verus! {

/// The tri-state code-generation compression mode.
#[derive(Debug, Clone, Copy, PartialEq, Eq, Structural)]
pub enum CompressOption {
    /// No compression.
    NoCompress,
    /// Whitespace removal only.
    Whitespace,
    /// Full minification.
    Fold,
}

/// The JSX lowering strategy.
#[derive(Debug, Clone, Copy, PartialEq, Eq, Structural)]
pub enum JsReactJsxRuntime {
    /// Compile JSX to `React.createElement` calls.
    Classic,
    /// Compile JSX to calls into the automatic runtime.
    Automatic,
}

/// Options for the JSX transform.
#[derive(Debug, Clone, Copy, PartialEq, Eq, Structural)]
pub struct JsReactOptions {
    /// Whether the JSX lowering plugin runs at all.
    pub jsx_plugin: bool,
    /// Which runtime the lowering targets.
    pub runtime: JsReactJsxRuntime,
}

/// Options for code generation.
#[derive(Debug, Clone, Copy, PartialEq, Eq, Structural)]
pub struct JsCodegenOptions {
    /// The compression mode.
    pub compress: CompressOption,
    /// Whether a source map is produced alongside the generated code.
    pub source_map: bool,
}

/// The full option set of one pipeline run, constructed once per call and
/// immutable for the call's duration.
#[derive(Debug, Clone, Copy, PartialEq, Eq, Structural)]
pub struct JsTransformOptions {
    /// Options threaded through to the transformer.
    pub react: JsReactOptions,
    /// Options threaded through to the code generator.
    pub codegen: JsCodegenOptions,
}

/// A dynamic host value for the compression flag, as the boundary sees it:
/// absent or null, a boolean, an integer, or a value of any other kind,
/// carrying that kind's name so the rejection can name what it saw.
#[derive(Debug, Clone, PartialEq, Eq)]
pub enum CompressValue {
    /// The key was absent, or its value was null.
    Absent,
    /// A boolean value.
    Bool(bool),
    /// An integer value.
    Int(i32),
    /// A value of any other dynamic kind; carries the kind's name.
    OtherKind(String),
}

impl CompressOption {
    /// Whether this is the no-compression mode.
    pub fn is_none(self) -> (r: bool)
        ensures
            r == (self == CompressOption::NoCompress),
    {
        matches!(self, CompressOption::NoCompress)
    }

    /// Whether any compression is selected.
    pub fn is_some(self) -> (r: bool)
        ensures
            r == (self == CompressOption::Whitespace || self == CompressOption::Fold),
    {
        matches!(self, CompressOption::Whitespace | CompressOption::Fold)
    }

    /// The mode a boolean host value selects: `true` means whitespace
    /// removal, `false` means no compression.
    pub fn from_bool(value: bool) -> (r: CompressOption)
        ensures
            r == spec_compress_of_bool(value),
    {
        if value {
            CompressOption::Whitespace
        } else {
            CompressOption::NoCompress
        }
    }

    /// The mode an integer host value selects: `0`, `1` and `2` select the
    /// three modes in order; every other integer is invalid, and the
    /// rejection names it.
    pub fn try_from_int(value: i32) -> (r: Result<CompressOption, TransformError>)
        ensures
            0 <= value <= 2 ==> (r matches Ok(c) && c == spec_compress_of_int(value as int)),
            !(0 <= value <= 2) ==> (r matches Err(e) && e matches
                TransformError::InvalidArgument(m) && m@ =~= spec_invalid_compress_int_message(
                value as int,
            )),
    {
        match value {
            0 => Ok(CompressOption::NoCompress),
            1 => Ok(CompressOption::Whitespace),
            2 => Ok(CompressOption::Fold),
            _ => Err(TransformError::InvalidArgument(invalid_compress_int_message(value))),
        }
    }

    /// The wire integer naming this mode: the inverse of `try_from_int` on
    /// the accepted range.
    pub fn to_int(self) -> (r: i32)
        ensures
            0 <= r <= 2,
            spec_compress_of_int(r as int) == self,
    {
        match self {
            CompressOption::NoCompress => 0,
            CompressOption::Whitespace => 1,
            CompressOption::Fold => 2,
        }
    }

    /// Decode the dynamic host value for the compression flag.
    ///
    /// Absent or null selects no compression; a boolean or an in-range
    /// integer selects its mode; an out-of-range integer and every other
    /// dynamic kind are invalid, and the rejection names the offending
    /// value or its kind.
    pub fn from_value(value: CompressValue) -> (r: Result<CompressOption, TransformError>)
        ensures
            compress_decodes(value) ==> (r matches Ok(c) && c == spec_decode_compress(value)),
            !compress_decodes(value) ==> (r matches Err(e) && e matches
                TransformError::InvalidArgument(_)),
            value matches CompressValue::Int(i) ==> (!(0 <= i <= 2) ==> (r matches Err(e)
                && e matches TransformError::InvalidArgument(m) && m@
                =~= spec_invalid_compress_int_message(i as int))),
            value matches CompressValue::OtherKind(k) ==> (r matches Err(e) && e matches
                TransformError::InvalidArgument(m) && m@ =~= spec_invalid_compress_kind_message(
                k@,
            )),
    {
        match value {
            CompressValue::Absent => Ok(CompressOption::NoCompress),
            CompressValue::Bool(b) => Ok(CompressOption::from_bool(b)),
            CompressValue::Int(i) => CompressOption::try_from_int(i),
            CompressValue::OtherKind(kind) => Err(
                TransformError::InvalidArgument(invalid_compress_kind_message(kind.as_str())),
            ),
        }
    }
}

/// The mode a boolean compression flag selects.
pub open spec fn spec_compress_of_bool(value: bool) -> CompressOption {
    if value {
        CompressOption::Whitespace
    } else {
        CompressOption::NoCompress
    }
}

/// The mode an in-range integer compression flag selects.
pub open spec fn spec_compress_of_int(value: int) -> CompressOption {
    if value == 0 {
        CompressOption::NoCompress
    } else if value == 1 {
        CompressOption::Whitespace
    } else {
        CompressOption::Fold
    }
}

/// Whether a dynamic compression value is one of the accepted shapes.
pub open spec fn compress_decodes(value: CompressValue) -> bool {
    match value {
        CompressValue::Absent => true,
        CompressValue::Bool(_) => true,
        CompressValue::Int(i) => 0 <= i <= 2,
        CompressValue::OtherKind(_) => false,
    }
}

/// The mode an accepted dynamic compression value selects.
pub open spec fn spec_decode_compress(value: CompressValue) -> CompressOption
    recommends
        compress_decodes(value),
{
    match value {
        CompressValue::Absent => CompressOption::NoCompress,
        CompressValue::Bool(b) => spec_compress_of_bool(b),
        CompressValue::Int(i) => spec_compress_of_int(i as int),
        CompressValue::OtherKind(_) => CompressOption::NoCompress,
    }
}

/// The message rejecting an out-of-range integer compression flag, naming
/// the offending value.
pub open spec fn spec_invalid_compress_int_message(n: int) -> Seq<char> {
    "Invalid CompressOption value `"@ + dec_int_str(n) + "`: must be 0, 1, or 2."@
}

/// The message rejecting a compression flag of an unaccepted dynamic kind,
/// naming that kind.
pub open spec fn spec_invalid_compress_kind_message(kind: Seq<char>) -> Seq<char> {
    "Invalid CompressOption value of type "@ + kind
        + ": must be undefined, null, a boolean, or a number."@
}

/// The message rejecting an unrecognized runtime tag, naming it.
pub open spec fn spec_invalid_runtime_message(tag: Seq<char>) -> Seq<char> {
    "Invalid ReactJsxRuntime value `"@ + tag + "`: must be \"classic\" or \"automatic\"."@
}

/// Render the rejection of an out-of-range integer compression flag.
fn invalid_compress_int_message(n: i32) -> (r: String)
    ensures
        r@ =~= spec_invalid_compress_int_message(n as int),
{
    let mut s = "Invalid CompressOption value `".to_owned();
    let digits = i32_dec(n);
    s.append(digits.as_str());
    s.append("`: must be 0, 1, or 2.");
    s
}

/// Render the rejection of a compression flag of an unaccepted kind.
fn invalid_compress_kind_message(kind: &str) -> (r: String)
    ensures
        r@ =~= spec_invalid_compress_kind_message(kind@),
{
    let mut s = "Invalid CompressOption value of type ".to_owned();
    s.append(kind);
    s.append(": must be undefined, null, a boolean, or a number.");
    s
}

/// Equivalences among the accepted compression flags: `true` and `1` both
/// select whitespace removal; `false`, `0` and an absent value all select no
/// compression; `2` selects full minification; every integer outside `0..=2`
/// is rejected.
pub proof fn lemma_compress_value_equivalences()
    ensures
        spec_decode_compress(CompressValue::Bool(true)) == spec_decode_compress(
            CompressValue::Int(1),
        ),
        spec_decode_compress(CompressValue::Bool(true)) == CompressOption::Whitespace,
        spec_decode_compress(CompressValue::Bool(false)) == spec_decode_compress(
            CompressValue::Int(0),
        ),
        spec_decode_compress(CompressValue::Bool(false)) == spec_decode_compress(
            CompressValue::Absent,
        ),
        spec_decode_compress(CompressValue::Bool(false)) == CompressOption::NoCompress,
        spec_decode_compress(CompressValue::Int(2)) == CompressOption::Fold,
        forall|i: i32| !(0 <= i <= 2) ==> !compress_decodes(CompressValue::Int(i)),
{
}

impl JsReactJsxRuntime {
    /// Decode the two-member closed set of string tags naming a runtime;
    /// any other tag is invalid.
    pub fn from_tag(tag: &str) -> (r: Result<JsReactJsxRuntime, TransformError>)
        ensures
            tag@ == "classic"@ ==> (r matches Ok(j) && j == JsReactJsxRuntime::Classic),
            tag@ == "automatic"@ ==> (r matches Ok(j) && j == JsReactJsxRuntime::Automatic),
            tag@ != "classic"@ && tag@ != "automatic"@ ==> (r matches Err(e) && e matches
                TransformError::InvalidArgument(m) && m@ =~= spec_invalid_runtime_message(tag@)),
    {
        proof {
            reveal_strlit("classic");
            reveal_strlit("automatic");
            assert("classic"@.len() == 7);
            assert("automatic"@.len() == 9);
        }
        if str_eq(tag, "classic") {
            Ok(JsReactJsxRuntime::Classic)
        } else if str_eq(tag, "automatic") {
            Ok(JsReactJsxRuntime::Automatic)
        } else {
            let mut s = "Invalid ReactJsxRuntime value `".to_owned();
            s.append(tag);
            s.append("`: must be \"classic\" or \"automatic\".");
            Err(TransformError::InvalidArgument(s))
        }
    }
}

impl Default for JsReactJsxRuntime {
    /// The runtime selected when the host names none.
    fn default() -> (r: Self)
        ensures
            r == JsReactJsxRuntime::Automatic,
    {
        JsReactJsxRuntime::Automatic
    }
}

impl Default for JsReactOptions {
    /// JSX lowering off, automatic runtime.
    fn default() -> (r: Self)
        ensures
            r == (JsReactOptions { jsx_plugin: false, runtime: JsReactJsxRuntime::Automatic }),
    {
        JsReactOptions { jsx_plugin: false, runtime: JsReactJsxRuntime::Automatic }
    }
}

impl Default for JsCodegenOptions {
    /// No compression, source map on.
    fn default() -> (r: Self)
        ensures
            r == (JsCodegenOptions { compress: CompressOption::NoCompress, source_map: true }),
    {
        JsCodegenOptions { compress: CompressOption::NoCompress, source_map: true }
    }
}

impl Default for JsTransformOptions {
    /// The defaults of every option group.
    fn default() -> (r: Self)
        ensures
            r == (JsTransformOptions {
                react: JsReactOptions { jsx_plugin: false, runtime: JsReactJsxRuntime::Automatic },
                codegen: JsCodegenOptions { compress: CompressOption::NoCompress, source_map: true },
            }),
    {
        JsTransformOptions {
            react: JsReactOptions { jsx_plugin: false, runtime: JsReactJsxRuntime::Automatic },
            codegen: JsCodegenOptions { compress: CompressOption::NoCompress, source_map: true },
        }
    }
}

} // verus!

