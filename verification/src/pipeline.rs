//! The pipeline orchestrator: one linear run of parse, semantic analysis,
//! transform and code generation over a single source unit, aborting on the
//! first failing stage.
//!
//! Every run owns a fresh arena, created at its start and released at its
//! end; no state is shared between runs. No stage is retried, and no
//! partial result is ever returned on a failure path.

use vstd::prelude::*;
use vstd::string::StringExecFns;
use crate::errors::{
    parse_stage_result, spec_parse_failure_message, transform_stage_result, TransformError,
};
use crate::options::{CompressOption, JsTransformOptions};
use crate::oxc::{
    build_scoping, codegen_out, new_allocator, parse_errs, parse_source, run_codegen,
    run_transformer, transform_errs,
};
use crate::source_type::{extension_of, ext_of, has_valid_ext, valid_extension};
use crate::wire_map::{to_wire, SourceMap};

verus! {

/// The outcome of one successful pipeline run, owned entirely by the
/// caller.
#[derive(Debug, Clone)]
pub struct TransformResult {
    /// The generated code.
    pub source_text: String,
    /// The wire-schema source map, present exactly when the options asked
    /// for one.
    pub source_map: Option<SourceMap>,
}

/// The message reported when no source type can be inferred from a
/// filename.
pub open spec fn spec_unknown_extension_message(filename: Seq<char>) -> Seq<char> {
    "Unknown or missing file extension: "@ + filename
}

/// The `InvalidArgument` reported when no source type can be inferred from
/// `filename`.
fn unknown_extension_error(filename: &str) -> (r: TransformError)
    ensures
        r matches TransformError::InvalidArgument(m) && m@ =~= spec_unknown_extension_message(
            filename@,
        ),
{
    let mut s = "Unknown or missing file extension: ".to_owned();
    s.append(filename);
    TransformError::InvalidArgument(s)
}

/// The options a run uses when the host names none.
pub open spec fn spec_options_or_default(options: Option<JsTransformOptions>) -> JsTransformOptions {
    match options {
        Some(o) => o,
        None => JsTransformOptions {
            react: crate::options::JsReactOptions {
                jsx_plugin: false,
                runtime: crate::options::JsReactJsxRuntime::Automatic,
            },
            codegen: crate::options::JsCodegenOptions {
                compress: CompressOption::NoCompress,
                source_map: true,
            },
        },
    }
}

/// Whether an option set selects the minifying code-generation mode: any
/// compression mode other than none.
pub open spec fn spec_minify(opts: JsTransformOptions) -> bool {
    opts.codegen.compress != CompressOption::NoCompress
}

/// Run the full pipeline over one source unit.
///
/// The filename's extension is checked before any parsing work; a filename
/// with no recognized extension fails with `InvalidArgument` for every
/// source text. A non-empty parse-error list aborts with a `ParseFailure`
/// aggregating every error; a non-empty transform-error list aborts with a
/// `TransformFailure` carrying only the first. When every stage reports no
/// error the run succeeds, and the result holds the generated code and —
/// exactly when the options ask for one — a well-formed version-3 source
/// map keyed to the filename, carrying the original source text.
pub fn transform(filename: String, source_text: String, options: Option<JsTransformOptions>) -> (r:
    Result<TransformResult, TransformError>)
    ensures
        (r matches Err(e) && e matches TransformError::InvalidArgument(m) && m@
            =~= spec_unknown_extension_message(filename@)) <==> !has_valid_ext(filename@),
        r matches Err(e) ==> (e matches TransformError::InvalidArgument(_)
            ==> !has_valid_ext(filename@)),
        (r matches Err(e) && e matches TransformError::ParseFailure(pm) && pm@
            =~= spec_parse_failure_message(
            filename@,
            parse_errs(source_text@, ext_of(filename@)),
        )) <==> (has_valid_ext(filename@) && parse_errs(
            source_text@,
            ext_of(filename@),
        ).len() > 0),
        r matches Err(e) ==> (e matches TransformError::ParseFailure(_) ==> has_valid_ext(
            filename@,
        ) && parse_errs(source_text@, ext_of(filename@)).len() > 0),
        (r matches Err(e) && e matches TransformError::TransformFailure(tm) && tm@
            == transform_errs(
            source_text@,
            ext_of(filename@),
            filename@,
            spec_options_or_default(options).react,
        )[0]) <==> (has_valid_ext(filename@) && parse_errs(source_text@, ext_of(filename@)).len()
            == 0 && transform_errs(
            source_text@,
            ext_of(filename@),
            filename@,
            spec_options_or_default(options).react,
        ).len() > 0),
        r matches Err(e) ==> (e matches TransformError::TransformFailure(_) ==> has_valid_ext(
            filename@,
        ) && parse_errs(source_text@, ext_of(filename@)).len() == 0 && transform_errs(
            source_text@,
            ext_of(filename@),
            filename@,
            spec_options_or_default(options).react,
        ).len() > 0),
        r matches Err(e) ==> (e matches TransformError::InvalidArgument(_) || e matches
            TransformError::ParseFailure(_) || e matches TransformError::TransformFailure(_)),
        (r is Ok) <==> (has_valid_ext(filename@) && parse_errs(
            source_text@,
            ext_of(filename@),
        ).len() == 0 && transform_errs(
            source_text@,
            ext_of(filename@),
            filename@,
            spec_options_or_default(options).react,
        ).len() == 0),
        r matches Ok(res) ==> res.source_text@ == codegen_out(
            source_text@,
            ext_of(filename@),
            filename@,
            spec_options_or_default(options).react,
            spec_minify(spec_options_or_default(options)),
        ).0,
        r matches Ok(res) ==> (res.source_map is Some) == spec_options_or_default(
            options,
        ).codegen.source_map,
        r matches Ok(res) ==> (res.source_map matches Some(m) ==> m.wf() && m.version == 3
            && m.ignore_list is None && m.file is None && m.source_root is None && m.sources@.len()
            == 1 && (m.sources@[0] matches Some(s) && s@ == filename@) && (
        m.sources_content matches Some(c) && c@.len() == 1 && (c@[0] matches Some(sc) && sc@
            == source_text@)) && m.mappings@ == codegen_out(
            source_text@,
            ext_of(filename@),
            filename@,
            spec_options_or_default(options).react,
            spec_minify(spec_options_or_default(options)),
        ).1 && m.names.deep_view() == codegen_out(
            source_text@,
            ext_of(filename@),
            filename@,
            spec_options_or_default(options).react,
            spec_minify(spec_options_or_default(options)),
        ).2),
{
    let opts = match options {
        Some(o) => o,
        None => JsTransformOptions::default(),
    };
    let ext = match extension_of(filename.as_str()) {
        Some(e) => e,
        None => {
            return Err(unknown_extension_error(filename.as_str()));
        },
    };
    if !valid_extension(ext.as_str()) {
        return Err(unknown_extension_error(filename.as_str()));
    }
    let allocator = new_allocator();
    let (mut ast, parse_errors) = parse_source(&allocator, source_text.as_str(), ext.as_str());
    match parse_stage_result(filename.as_str(), &parse_errors) {
        Err(e) => {
            return Err(e);
        },
        Ok(()) => {},
    }
    let scoping = build_scoping(&ast);
    let transform_errors = run_transformer(
        &allocator,
        filename.as_str(),
        &opts.react,
        scoping,
        &mut ast,
    );
    match transform_stage_result(&transform_errors) {
        Err(e) => {
            return Err(e);
        },
        Ok(()) => {},
    }
    let map_path: Option<&str> = if opts.codegen.source_map {
        Some(filename.as_str())
    } else {
        None
    };
    let (code, parts) = run_codegen(&ast, opts.codegen.compress.is_some(), map_path);
    let source_map = match parts {
        Some(p) => Some(to_wire(p)),
        None => None,
    };
    Ok(TransformResult { source_text: code, source_map })
}

} // verus!
