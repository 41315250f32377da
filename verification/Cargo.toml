[package]
name = "tss-esapi"
version = "0.1.0"
edition = "2021"
publish = false

[dependencies]
enumflags2 = "0.7"
log = "0.4"
num-derive = "0.4"
num-traits = "0.2"
serde = { version = "1.0", features = ["derive"] }

[dev-dependencies]
bitfield = "0.14"
