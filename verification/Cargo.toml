[package]
name = "auto_enums"
version = "0.8.7"
edition = "2021"
publish = false

[dependencies]
derive_utils = "0.15"
proc-macro2 = "1"
quote = "1"
syn = { version = "2", default-features = false, features = ["parsing", "printing", "clone-impls", "proc-macro", "full", "visit-mut"] }
