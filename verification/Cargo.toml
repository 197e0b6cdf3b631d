[package]
name = "transpile_core"
version = "0.1.0"
edition = "2021"
publish = false

[dependencies]
proc-macro2 = { version = "1", features = ["span-locations"] }
syn = { version = "2", features = ["full"] }
swc_core = { version = "*", features = ["common", "ecma_ast", "ecma_codegen"] }
sourcemap = "*"
