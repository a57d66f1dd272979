use jstransform::{parse_failure, parse_stage_result, transform_stage_result, SourceMapError, TransformError};

#[test]
fn map_error_fixed_descriptions() {
    assert_eq!(
        SourceMapError::VlqLeftover.describe(),
        "VLQ string was malformed and data was left over"
    );
    assert_eq!(
        SourceMapError::VlqNoValues.describe(),
        "VLQ string was empty and no values could be decoded"
    );
    assert_eq!(
        SourceMapError::VlqOverflow.describe(),
        "The input encoded a number that didn't fit into i64"
    );
}

#[test]
fn map_error_descriptions_with_payload() {
    assert_eq!(
        SourceMapError::BadJson("expected value at line 1 column 1".to_string()).describe(),
        "JSON parsing error: expected value at line 1 column 1"
    );
    assert_eq!(
        SourceMapError::BadSegmentSize(7).describe(),
        "Mapping segment had an unsupported size of 7"
    );
    assert_eq!(
        SourceMapError::BadSegmentSize(120).describe(),
        "Mapping segment had an unsupported size of 120"
    );
    assert_eq!(
        SourceMapError::BadReference(0).describe(),
        "Reference to a non-existent source or name at position 0"
    );
    assert_eq!(
        SourceMapError::BadReference(40305).describe(),
        "Reference to a non-existent source or name at position 40305"
    );
}

#[test]
fn message_of_each_variant() {
    assert_eq!(TransformError::InvalidArgument("bad".into()).message(), "bad");
    assert_eq!(TransformError::ParseFailure("p".into()).message(), "p");
    assert_eq!(TransformError::TransformFailure("t".into()).message(), "t");
    assert_eq!(
        TransformError::SourceMapDecodeError(SourceMapError::VlqOverflow).message(),
        "The input encoded a number that didn't fit into i64"
    );
    assert_eq!(
        TransformError::AsyncDispatchFailure("worker gone".into()).message(),
        "Failed to complete the async transform: worker gone"
    );
}

#[test]
fn parse_failure_aggregates_all_errors() {
    let rendered = vec!["first error".to_string(), "second error".to_string()];
    match parse_failure("mod.ts", &rendered) {
        TransformError::ParseFailure(m) => {
            assert_eq!(m, "Failed to parse mod.ts:\n\nfirst error\n\nsecond error");
        }
        other => panic!("expected ParseFailure, got {other:?}"),
    }
}

#[test]
fn parse_failure_single_error() {
    let rendered = vec!["only".to_string()];
    match parse_failure("a.js", &rendered) {
        TransformError::ParseFailure(m) => {
            assert_eq!(m, "Failed to parse a.js:\n\nonly");
        }
        other => panic!("expected ParseFailure, got {other:?}"),
    }
}

#[test]
fn transform_failure_reports_only_the_first() {
    let rendered = vec!["root cause".to_string(), "cascade".to_string(), "more".to_string()];
    match transform_stage_result(&rendered) {
        Err(TransformError::TransformFailure(m)) => assert_eq!(m, "root cause"),
        other => panic!("expected TransformFailure, got {other:?}"),
    }
}

#[test]
fn empty_stage_collections_succeed() {
    assert!(parse_stage_result("a.js", &Vec::new()).is_ok());
    assert!(transform_stage_result(&Vec::new()).is_ok());
    match parse_stage_result("a.js", &vec!["e".to_string()]) {
        Err(TransformError::ParseFailure(m)) => assert_eq!(m, "Failed to parse a.js:\n\ne"),
        other => panic!("expected ParseFailure, got {other:?}"),
    }
}
