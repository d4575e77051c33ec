[package]
name = "extract-core"
version = "0.1.0"
edition = "2021"
publish = false

[dependencies]
bytemuck = "1"
jni = { version = "0.21.1", features = ["invocation"] }
