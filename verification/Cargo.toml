[package]
name = "xml_struct"
version = "0.1.0"
edition = "2021"
publish = false

[dependencies]
quick-xml = "0.31"
thiserror = "1"
proc-macro2 = "1"
quote = "1"
syn = { version = "2", features = ["full"] }
