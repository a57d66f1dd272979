use jstransform::{
    transform, CompressOption, JsCodegenOptions, JsReactJsxRuntime, JsReactOptions,
    JsTransformOptions, TransformError,
};

fn opts(compress: CompressOption, source_map: bool, jsx_plugin: bool) -> JsTransformOptions {
    JsTransformOptions {
        react: JsReactOptions { jsx_plugin, runtime: JsReactJsxRuntime::Automatic },
        codegen: JsCodegenOptions { compress, source_map },
    }
}

#[test]
fn transform_plain_script() {
    let r = transform("test.js".to_string(), "let x = 1;".to_string(), None).unwrap();
    assert!(r.source_text.contains("let x = 1"));
}

#[test]
fn transform_default_options_produce_a_version_3_map() {
    let r = transform("test.js".to_string(), "let x = 1;".to_string(), None).unwrap();
    let map = r.source_map.expect("default options ask for a source map");
    assert_eq!(map.version, 3);
    assert!(map.ignore_list.is_none());
    assert_eq!(map.sources, vec![Some("test.js".to_string())]);
    assert_eq!(
        map.sources_content,
        Some(vec![Some("let x = 1;".to_string())])
    );
}

#[test]
fn transform_without_source_map() {
    let o = opts(CompressOption::NoCompress, false, false);
    let r = transform("test.js".to_string(), "let x = 1;".to_string(), Some(o)).unwrap();
    assert!(r.source_map.is_none());
}

#[test]
fn returned_map_sources_align_with_content() {
    let o = opts(CompressOption::NoCompress, true, false);
    let r = transform("mod.ts".to_string(), "export const a: number = 2;".to_string(), Some(o))
        .unwrap();
    let map = r.source_map.unwrap();
    let content = map.sources_content.as_ref().expect("content is embedded");
    assert_eq!(content.len(), map.sources.len());
}

#[test]
fn transform_strips_typescript_types() {
    let r = transform("mod.ts".to_string(), "let x: number = 1;".to_string(), None).unwrap();
    assert!(!r.source_text.contains("number"));
    assert!(r.source_text.contains("let x = 1"));
}

#[test]
fn transform_output_reparses_cleanly() {
    let sources = [
        ("test.js", "let x = 1;\nfunction f(a) { return a + x; }"),
        ("mod.ts", "export interface I { a: number }\nexport const v: I = { a: 1 };"),
        ("comp.jsx", "export const C = () => <div a={1}>hi</div>;"),
    ];
    for (name, text) in sources {
        let lowered = opts(CompressOption::NoCompress, false, true);
        let first = transform(name.to_string(), text.to_string(), Some(lowered)).unwrap();
        let again = transform("again.js".to_string(), first.source_text.clone(), None);
        match again {
            Ok(_) => {}
            Err(e) => panic!("output of {name} failed to re-parse: {:?}", e),
        }
    }
}

#[test]
fn compress_true_equals_compress_one() {
    let text = "let value = 1;\n\nfunction f() {\n    return value + 1;\n}\n";
    let a = transform(
        "test.js".to_string(),
        text.to_string(),
        Some(opts(CompressOption::from_bool(true), false, false)),
    )
    .unwrap();
    let b = transform(
        "test.js".to_string(),
        text.to_string(),
        Some(opts(CompressOption::try_from_int(1).unwrap(), false, false)),
    )
    .unwrap();
    assert_eq!(a.source_text, b.source_text);
    let plain = transform(
        "test.js".to_string(),
        text.to_string(),
        Some(opts(CompressOption::NoCompress, false, false)),
    )
    .unwrap();
    assert!(a.source_text.len() < plain.source_text.len());
}

#[test]
fn unknown_extension_fails_before_parsing() {
    for text in ["", "let x = 1;", "not even javascript {{{"] {
        match transform("file.xyz".to_string(), text.to_string(), None) {
            Err(TransformError::InvalidArgument(m)) => {
                assert_eq!(m, "Unknown or missing file extension: file.xyz");
            }
            other => panic!("expected InvalidArgument, got {other:?}"),
        }
    }
}

#[test]
fn missing_extension_fails() {
    match transform("file".to_string(), "".to_string(), None) {
        Err(TransformError::InvalidArgument(_)) => {}
        other => panic!("expected InvalidArgument, got {other:?}"),
    }
}

#[test]
fn two_syntax_errors_are_both_reported() {
    let text = "const a;\nconst b;";
    match transform("test.js".to_string(), text.to_string(), None) {
        Err(TransformError::ParseFailure(m)) => {
            let header = "Failed to parse test.js:\n\n";
            assert!(m.starts_with(header), "unexpected message: {m}");
            let body = &m[header.len()..];
            let parts: Vec<&str> = body.split("\n\n").collect();
            assert!(parts.len() >= 2, "expected two blank-line separated errors, got: {m}");
            assert!(parts.iter().all(|p| !p.is_empty()));
        }
        other => panic!("expected ParseFailure, got {other:?}"),
    }
}

#[test]
fn single_syntax_error_is_reported() {
    match transform("test.js".to_string(), "let = ;".to_string(), None) {
        Err(TransformError::ParseFailure(m)) => {
            assert!(m.starts_with("Failed to parse test.js:\n\n"));
        }
        other => panic!("expected ParseFailure, got {other:?}"),
    }
}

#[test]
fn jsx_is_lowered_when_the_plugin_is_on() {
    let o = JsTransformOptions {
        react: JsReactOptions { jsx_plugin: true, runtime: JsReactJsxRuntime::Classic },
        codegen: JsCodegenOptions { compress: CompressOption::NoCompress, source_map: false },
    };
    let r = transform(
        "comp.jsx".to_string(),
        "export const C = () => <div>hi</div>;".to_string(),
        Some(o),
    )
    .unwrap();
    assert!(!r.source_text.contains("<div>"), "JSX survived: {}", r.source_text);
    assert!(r.source_text.contains("React.createElement"), "got: {}", r.source_text);
}

#[test]
fn equal_inputs_give_equal_results() {
    let text = "let x: number = 1;\nexport const y = x + 1;";
    let a = transform("mod.ts".to_string(), text.to_string(), None).unwrap();
    let b = transform("mod.ts".to_string(), text.to_string(), None).unwrap();
    assert_eq!(a.source_text, b.source_text);
    let (ma, mb) = (a.source_map.unwrap(), b.source_map.unwrap());
    assert_eq!(ma.file, mb.file);
    assert_eq!(ma.names, mb.names);
    assert_eq!(ma.source_root, mb.source_root);
    assert_eq!(ma.sources, mb.sources);
    assert_eq!(ma.sources_content, mb.sources_content);
    assert_eq!(ma.version, mb.version);
    assert_eq!(ma.ignore_list, mb.ignore_list);
    assert_eq!(ma.mappings, mb.mappings);
}

#[test]
fn absent_options_equal_explicit_defaults() {
    let text = "function f() { return 1; }";
    let a = transform("test.js".to_string(), text.to_string(), None).unwrap();
    let b = transform(
        "test.js".to_string(),
        text.to_string(),
        Some(JsTransformOptions::default()),
    )
    .unwrap();
    assert_eq!(a.source_text, b.source_text);
    let (ma, mb) = (a.source_map.unwrap(), b.source_map.unwrap());
    assert_eq!(ma.mappings, mb.mappings);
    assert_eq!(ma.sources, mb.sources);
    assert_eq!(ma.sources_content, mb.sources_content);
}

#[test]
fn returned_map_has_no_file_and_no_root() {
    let r = transform("test.js".to_string(), "let x = 1;".to_string(), None).unwrap();
    let map = r.source_map.unwrap();
    assert_eq!(map.file, None);
    assert_eq!(map.source_root, None);
}

#[test]
fn all_eight_extensions_are_accepted() {
    for name in [
        "a.js", "a.mjs", "a.cjs", "a.jsx", "a.ts", "a.mts", "a.cts", "a.tsx",
    ] {
        let r = transform(name.to_string(), "let x = 1;".to_string(), None);
        assert!(r.is_ok(), "{name} was rejected: {:?}", r.err());
    }
}
