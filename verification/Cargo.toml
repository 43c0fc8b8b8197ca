[package]
name = "hello-world"
version = "0.1.0"
edition = "2021"
publish = false

[dependencies]
wasmtime = { version = "=43.0.2", default-features = false, features = ["runtime", "component-model", "cranelift", "pulley", "std", "wat"] }
