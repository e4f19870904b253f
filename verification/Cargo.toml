[package]
name = "sql_macros"
version = "0.1.0"
edition = "2021"
publish = false

[dependencies]
convert_case = "*"
proc-macro2 = "1"
quote = "1"
syn = { version = "2", features = ["full"] }
anyhow = "1"
