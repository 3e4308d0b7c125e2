[package]
name = "xacml_rs"
version = "0.1.0"
edition = "2021"
publish = false

[dependencies]
rustc_apfloat = "*"
serde = { version = "=1.0.229", features = ["derive"] }
quick-xml = { version = "=0.42.0", features = ["serialize"] }
