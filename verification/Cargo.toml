[package]
name = "juniper_schema"
version = "0.1.0"
edition = "2021"
publish = false

[dependencies]
graphql-parser = "*"
proc-macro2 = "*"
quote = "*"
syn = { version = "*", features = ["full"] }
