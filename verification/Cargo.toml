[package]
name = "omeet"
version = "0.1.0"
edition = "2021"
publish = false

[dependencies]
chrono = "0.4"
rand = "0.9"
serde = { version = "1", features = ["derive"] }
thiserror = "2"
syn = { version = "2", features = ["full"] }
quote = "1"
proc-macro2 = "1"
async-trait = "0.1"
futures = "0.3"
