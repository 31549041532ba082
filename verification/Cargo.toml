[package]
name = "camport3"
version = "0.1.0"
edition = "2021"
publish = false

[dependencies]
macaddr = "*"
serde = { version = "*", features = ["derive"] }
thiserror = "*"
bitflags = "*"
strum_macros = "*"
