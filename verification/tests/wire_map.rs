use jstransform::{to_wire, EncodedParts, SourceMap};

fn sample_parts() -> EncodedParts {
    EncodedParts {
        file: Some("out.js".to_string()),
        mappings: "AAAA".to_string(),
        source_root: None,
        sources: vec!["a.ts".to_string(), "b.ts".to_string()],
        sources_content: Some(vec![Some("let a;".to_string()), None]),
        names: vec!["a".to_string()],
    }
}

#[test]
fn to_wire_fixes_version_and_ignore_list() {
    let m: SourceMap = to_wire(sample_parts());
    assert_eq!(m.version, 3);
    assert!(m.ignore_list.is_none());
}

#[test]
fn to_wire_copies_fields_verbatim() {
    let m = to_wire(sample_parts());
    assert_eq!(m.file, Some("out.js".to_string()));
    assert_eq!(m.mappings, "AAAA");
    assert_eq!(m.source_root, None);
    assert_eq!(m.names, vec!["a".to_string()]);
    assert_eq!(
        m.sources_content,
        Some(vec![Some("let a;".to_string()), None])
    );
}

#[test]
fn to_wire_wraps_each_source() {
    let m = to_wire(sample_parts());
    assert_eq!(m.sources, vec![Some("a.ts".to_string()), Some("b.ts".to_string())]);
}

#[test]
fn to_wire_keeps_sources_and_content_aligned() {
    let m = to_wire(sample_parts());
    let content = m.sources_content.as_ref().unwrap();
    assert_eq!(content.len(), m.sources.len());
}
