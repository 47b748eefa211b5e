[package]
name = "gpui_component"
version = "0.1.0"
edition = "2021"
publish = false

[dependencies]
proc-macro-crate = "3"
proc-macro2 = "1"
quote = "1"
syn = "2"
