[package]
name = "jsfuck_encoder"
version = "0.1.0"
edition = "2021"

[dependencies]
swc_core = { version = "*", features = ["common", "ecma_ast", "ecma_parser", "ecma_codegen"] }
wasm-bindgen = "*"
