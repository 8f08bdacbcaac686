[package]
name = "ws_frontend"
version = "0.1.0"
edition = "2021"
publish = false

[dependencies]
colored = "2"
pest = "2"
pest_derive = "2"
