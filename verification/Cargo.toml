[package]
name = "vmprep"
version = "0.1.0"
edition = "2021"
publish = false

[dependencies]
anyhow = "1"
log = "0.4"
once_cell = "1"
serde = { version = "1", features = ["derive"] }
serde-xml-rs = "0.6"
zerocopy = "0.7"

[dev-dependencies]
regex = "1"
