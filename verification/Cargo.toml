[package]
name = "inquire"
version = "0.1.0"
edition = "2021"
publish = false

[dependencies]
fxhash = "0.2"
unicode-width = "0.1"
chrono = { version = "0.4", default-features = false }
darling = "0.20"
proc-macro2 = "1"
quote = "1"
syn = { version = "2", features = ["full"] }
