[package]
name = "gentoo-interner"
version = "0.1.0"
edition = "2021"
publish = false

[dependencies]
boxcar = "0.2"
lasso = { version = "0.7", features = ["multi-threaded"] }
papaya = "0.2"
parking_lot = "0.12"
serde = "1"
symbol_table = { version = "0.4", features = ["global"] }
