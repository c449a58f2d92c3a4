[package]
name = "fbx_dom"
version = "0.1.0"
edition = "2021"
publish = false

[dependencies]
fbxcel = { version = "=0.9.0", features = ["tree"] }
