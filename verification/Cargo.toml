[package]
name = "cached_proc_macro"
version = "0.1.0"
edition = "2021"
publish = false

[dependencies]
darling = "=0.14.4"
proc-macro2 = "=1.0.56"
quote = "=1.0.27"
syn = { version = "=1.0.109", features = ["full"] }
unicode-ident = "=1.0.27"
