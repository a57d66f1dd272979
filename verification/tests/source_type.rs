use jstransform::{extension_of, valid_extension};

#[test]
fn extension_of_plain_names() {
    assert_eq!(extension_of("foo.js"), Some("js".to_string()));
    assert_eq!(extension_of("foo.test.tsx"), Some("tsx".to_string()));
    assert_eq!(extension_of("dir/sub/foo.mts"), Some("mts".to_string()));
}

#[test]
fn extension_of_without_extension() {
    assert_eq!(extension_of("foo"), None);
    assert_eq!(extension_of(""), None);
    assert_eq!(extension_of("dir.v2/foo"), None);
}

#[test]
fn extension_of_hidden_files() {
    assert_eq!(extension_of(".js"), None);
    assert_eq!(extension_of("dir/.ts"), None);
    assert_eq!(extension_of(".config.js"), Some("js".to_string()));
}

#[test]
fn extension_of_trailing_dot() {
    assert_eq!(extension_of("foo."), Some("".to_string()));
}

#[test]
fn valid_extensions_are_the_eight() {
    for good in ["js", "mjs", "cjs", "jsx", "ts", "mts", "cts", "tsx"] {
        assert!(valid_extension(good), "{good} should be accepted");
    }
    for bad in ["", "JS", "xyz", "d.ts", "tsx ", "json", "rs"] {
        assert!(!valid_extension(bad), "{bad:?} should be rejected");
    }
}
