[package]
name = "ui_macros"
version = "0.1.0"
edition = "2021"
publish = false

[dependencies]
convert_case = "0.6"
syn = { version = "2", features = ["full"] }
