[package]
name = "fetch_panel"
version = "0.1.0"
edition = "2021"
publish = false

[dependencies]
anyhow = "1"
yew = "0.17"
yew-router = "0.14"
