//! The trusted boundary to the oxc toolchain.
//!
//! Each wrapper here makes one stage's outside call and converts its
//! arguments and results between the library's plain values and the
//! toolchain's types; its contract states only what the called crate's
//! source shows. The parser, transformer and code generator are
//! deterministic: each output is a pure function of its inputs, so the
//! outputs are given names (`parse_errs`, `transform_errs`, `codegen_out`)
//! over the plain values they depend on. The program itself is opaque, so
//! an `Ast` carries it together with a ghost record of the text and
//! extension it was parsed from and of the transform applied to it; the
//! fields are private, and only the wrappers below touch them.

use vstd::prelude::*;
use crate::options::{JsReactJsxRuntime, JsReactOptions};
use crate::source_type::is_valid_ext;
use crate::wire_map::EncodedParts;

verus! {

#[verifier::external_type_specification]
#[verifier::external_body]
pub struct ExAllocator(oxc_allocator::Allocator);

#[verifier::external_type_specification]
#[verifier::external_body]
pub struct ExProgram<'a>(oxc_ast::ast::Program<'a>);

#[verifier::external_type_specification]
#[verifier::external_body]
pub struct ExScoping(oxc_semantic::Scoping);

/// What a program in the arena was made from: the source text and
/// extension it was parsed from, and, once the transformer has run over it,
/// the filename and options that run used.
pub struct AstOrigin {
    /// The source text the program was parsed from.
    pub text: Seq<char>,
    /// The extension the program's source type was derived from.
    pub ext: Seq<char>,
    /// The filename and options of the transform pass, once one has run.
    pub lowered: Option<(Seq<char>, JsReactOptions)>,
}

/// A parsed program together with the ghost record of its origin.
pub struct Ast<'a> {
    program: oxc_ast::ast::Program<'a>,
    model: Ghost<AstOrigin>,
}

impl<'a> Ast<'a> {
    /// The ghost record of what this program was made from.
    pub closed spec fn origin(self) -> AstOrigin {
        self.model@
    }
}

/// The rendered syntax errors that parsing yields on a source text of the
/// given extension. The parser is a pure function of the text and the
/// source type, and the source type is derived from the extension alone.
pub uninterp spec fn parse_errs(text: Seq<char>, ext: Seq<char>) -> Seq<Seq<char>>;

/// The rendered diagnostics of the transformer, run with the given
/// filename and options — and with the symbol and scope structures built
/// from that same program — over the program parsed from the given text
/// and extension. The transformer mutates the program in place and is a
/// pure function of these values.
pub uninterp spec fn transform_errs(
    text: Seq<char>,
    ext: Seq<char>,
    filename: Seq<char>,
    react: JsReactOptions,
) -> Seq<Seq<char>>;

/// What the code generator emits over the program parsed from the given
/// text and extension and transformed with the given filename and options:
/// the generated code, the encoded mapping segments, and the mapped symbol
/// names, under the given minification mode.
pub uninterp spec fn codegen_out(
    text: Seq<char>,
    ext: Seq<char>,
    filename: Seq<char>,
    react: JsReactOptions,
    minify: bool,
) -> (Seq<char>, Seq<char>, Seq<Seq<char>>);

/// Relies on `oxc_allocator::Allocator::default`: a fresh, empty arena.
#[verifier::external_body]
pub(crate) fn new_allocator() -> oxc_allocator::Allocator {
    oxc_allocator::Allocator::default()
}

/// Relies on `oxc_span::SourceType::from_extension`, which accepts exactly
/// the extensions of `VALID_EXTENSIONS`, and on `oxc_parser::Parser::parse`,
/// which returns the parsed program together with the syntax errors it
/// recovered from; each error is rendered through its display form.
/// The source type is derived from the extension alone, so a `.d.ts`
/// filename parses as ordinary `.ts`, without the declaration-file marking
/// that `SourceType::from_path` would add.
#[verifier::external_body]
fn parse_program<'a>(alloc: &'a oxc_allocator::Allocator, text: &'a str, ext: &str) -> (r: (
    oxc_ast::ast::Program<'a>,
    Vec<String>,
))
    requires
        is_valid_ext(ext@),
    ensures
        r.1.deep_view() == parse_errs(text@, ext@),
{
    let source_type = oxc_span::SourceType::from_extension(ext).unwrap();
    let ret = oxc_parser::Parser::new(alloc, text, source_type).parse();
    let errors = ret.diagnostics.into_vec().into_iter().map(|e| e.to_string()).collect();
    (ret.program, errors)
}

/// Parse one source unit and seal the program with the record of what it
/// was parsed from. This is the only place an `Ast` is made, so every
/// `Ast` carries an accurate origin.
pub(crate) fn parse_source<'a>(
    alloc: &'a oxc_allocator::Allocator,
    text: &'a str,
    ext: &str,
) -> (r: (Ast<'a>, Vec<String>))
    requires
        is_valid_ext(ext@),
    ensures
        r.0.origin() == (AstOrigin { text: text@, ext: ext@, lowered: None }),
        r.1.deep_view() == parse_errs(text@, ext@),
{
    let (program, errors) = parse_program(alloc, text, ext);
    let ghost origin = AstOrigin { text: text@, ext: ext@, lowered: None };
    (Ast { program, model: Ghost(origin) }, errors)
}

/// Symbol and scope structures together with the ghost record of the
/// program they were built from.
pub struct Scoped {
    scoping: oxc_semantic::Scoping,
    model: Ghost<AstOrigin>,
}

impl Scoped {
    /// The ghost record of the program these structures were built from.
    pub closed spec fn origin(self) -> AstOrigin {
        self.model@
    }
}

/// Relies on `oxc_semantic::SemanticBuilder::build`: builds the symbol and
/// scope structures of the program.
#[verifier::external_body]
fn build_scoping_raw<'a>(ast: &Ast<'a>) -> oxc_semantic::Scoping {
    oxc_semantic::SemanticBuilder::new().build(&ast.program).semantic.into_scoping()
}

/// Build the symbol and scope structures of the program and seal them with
/// the record of the program they came from, so that a transform pass can
/// only be run with the scoping of its own program.
pub(crate) fn build_scoping<'a>(ast: &Ast<'a>) -> (r: Scoped)
    ensures
        r.origin() == ast.origin(),
{
    let scoping = build_scoping_raw(ast);
    let ghost origin = ast.origin();
    Scoped { scoping, model: Ghost(origin) }
}

/// Relies on `oxc_transformer::Transformer::build_with_scoping`: runs the
/// configured transforms over the program in place, with the symbol and
/// scope structures built from that same program, and reports its
/// diagnostics; each is rendered through its display form. Only the JSX
/// option group is threaded through; the other groups keep their defaults.
#[verifier::external_body]
pub(crate) fn run_transformer<'a>(
    alloc: &'a oxc_allocator::Allocator,
    filename: &str,
    react: &JsReactOptions,
    scoping: Scoped,
    ast: &mut Ast<'a>,
) -> (r: Vec<String>)
    requires
        scoping.origin() == old(ast).origin(),
        old(ast).origin().lowered is None,
    ensures
        final(ast).origin() == (AstOrigin {
            lowered: Some((filename@, *react)),
            ..old(ast).origin()
        }),
        r.deep_view() == transform_errs(
            old(ast).origin().text,
            old(ast).origin().ext,
            filename@,
            *react,
        ),
{
    let options = oxc_transformer::TransformOptions {
        jsx: oxc_transformer::JsxOptions {
            jsx_plugin: react.jsx_plugin,
            runtime: match react.runtime {
                JsReactJsxRuntime::Classic => oxc_transformer::JsxRuntime::Classic,
                JsReactJsxRuntime::Automatic => oxc_transformer::JsxRuntime::Automatic,
            },
            ..Default::default()
        },
        ..Default::default()
    };
    let ret = oxc_transformer::Transformer::new(alloc, std::path::Path::new(filename), &options)
        .build_with_scoping(scoping.scoping, &mut ast.program);
    ret.diagnostics.into_vec().into_iter().map(|e| e.to_string()).collect()
}

/// Relies on `oxc_codegen::Codegen::build`, which emits code
/// deterministically from the program and returns an internal source map
/// exactly when a source-map path is set — built with no file and no root,
/// keyed to that one path, with that one source's content being the text
/// the program was parsed from — and on `oxc_sourcemap::SourceMap::to_json`,
/// which renders the mapping table and copies the other fields verbatim,
/// emitting `sources_content` whenever any content is present.
#[verifier::external_body]
pub(crate) fn run_codegen<'a>(ast: &Ast<'a>, minify: bool, map_path: Option<&str>) -> (r: (
    String,
    Option<EncodedParts>,
))
    ensures
        (r.1 is Some) == (map_path is Some),
        ast.origin().lowered matches Some(l) ==> r.0@ == codegen_out(
            ast.origin().text,
            ast.origin().ext,
            l.0,
            l.1,
            minify,
        ).0,
        r.1 matches Some(p) ==> p.file is None && p.source_root is None && p.sources@.len() == 1
            && (map_path matches Some(mp) && p.sources@[0]@ == mp@) && (
        p.sources_content matches Some(c) && c@.len() == 1 && (c@[0] matches Some(sc) && sc@
            == ast.origin().text)),
        r.1 matches Some(p) ==> (ast.origin().lowered matches Some(l) ==> p.mappings@
            == codegen_out(ast.origin().text, ast.origin().ext, l.0, l.1, minify).1
            && p.names.deep_view() == codegen_out(
            ast.origin().text,
            ast.origin().ext,
            l.0,
            l.1,
            minify,
        ).2),
{
    let options = oxc_codegen::CodegenOptions {
        minify,
        source_map_path: map_path.map(std::path::PathBuf::from),
        ..Default::default()
    };
    let ret = oxc_codegen::Codegen::new().with_options(options).build(&ast.program);
    let map = ret.map.map(|m| {
        let json = m.to_json();
        EncodedParts {
            file: json.file, mappings: json.mappings, source_root: json.source_root,
            sources: json.sources, sources_content: json.sources_content, names: json.names,
        }
    });
    (ret.code, map)
}

} // verus!
