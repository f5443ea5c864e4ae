[package]
name = "ion_fuzz"
version = "0.1.0"
edition = "2021"
publish = false

[dependencies]
arbitrary = "1"
bincode = "1.3"
log = "0.4"
serde = "1"

[dev-dependencies]
arbtest = "0.3"
