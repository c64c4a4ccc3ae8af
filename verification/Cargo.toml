[package]
name = "builder_gen"
version = "0.1.0"
edition = "2021"
publish = false

[dependencies]
itertools = "0.13"
proc-macro2 = "1"
quote = "1"
syn = { version = "2", features = ["full", "visit-mut"] }
