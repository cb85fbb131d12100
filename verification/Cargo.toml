[package]
name = "chart_input"
version = "0.1.0"
edition = "2021"
publish = false

[dependencies]
uzor = "1.5"
gate4agent = "0.5"
