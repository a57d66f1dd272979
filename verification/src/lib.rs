//! A source-to-source JavaScript/TypeScript transformation pipeline.
//!
//! The crate orchestrates the stages parse, semantic analysis, transform and
//! code generation over the oxc toolchain, translates a loosely typed host
//! configuration into strongly typed options, aggregates per-stage error
//! collections into a single reportable failure, and converts the internal
//! source-map model into the fixed version-3 wire schema.

mod source_type;
mod options;
mod errors;
mod wire_map;
mod oxc;
mod pipeline;

pub use source_type::{
    ext_at, ext_of, extension_of, has_ext, has_valid_ext, is_valid_ext, str_eq, valid_extension,
};
pub use options::{
    compress_decodes, lemma_compress_value_equivalences, spec_compress_of_bool,
    spec_compress_of_int, spec_decode_compress, spec_invalid_compress_int_message,
    spec_invalid_compress_kind_message, spec_invalid_runtime_message, CompressOption,
    CompressValue, JsCodegenOptions, JsReactJsxRuntime, JsReactOptions, JsTransformOptions,
};
pub use errors::{
    dec_int_str, dec_str, i32_dec, join_blank_lines, join_errors, parse_failure,
    parse_stage_result, spec_describe_map_error, spec_message, spec_parse_failure_message,
    transform_stage_result, u32_dec, SourceMapError, TransformError,
};
pub use oxc::{codegen_out, parse_errs, transform_errs, AstOrigin};
pub use wire_map::{lemma_sources_content_aligned, to_wire, EncodedParts, SourceMap};
pub use pipeline::{
    spec_minify, spec_options_or_default, spec_unknown_extension_message, transform,
    TransformResult,
};
