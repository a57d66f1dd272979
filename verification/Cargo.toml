[package]
name = "jstransform"
version = "0.1.0"
edition = "2021"
rust-version = "1.95.0"
publish = false

[dependencies]
oxc_allocator = "=0.146.0"
oxc_ast = "=0.146.0"
oxc_codegen = "=0.146.0"
oxc_parser = "=0.146.0"
oxc_semantic = "=0.146.0"
oxc_sourcemap = "=8.1.2"
oxc_span = "=0.146.0"
oxc_transformer = "=0.146.0"
napi = { version = "=3.14.2", features = ["async"] }
napi-derive = "=3.6.12"
tokio = { version = "=1.53.2", features = ["rt"] }
