[package]
name = "axum_open_api_codegen"
version = "0.1.0"
edition = "2021"
publish = false

[dependencies]
convert_case = "=0.12.0"
oas3 = { version = "=0.22.0", features = ["yaml-spec"] }
syn = { version = "=3.0.6", features = ["full"] }
quote = "=1.0.47"
proc-macro2 = "=1.0.107"
axum = "=0.8.9"
