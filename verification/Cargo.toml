[package]
name = "kclvm_capi"
version = "0.1.0"
edition = "2021"
publish = false

[dependencies]
protobuf = "3"
protobuf-json-mapping = "3"
