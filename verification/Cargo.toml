[package]
name = "text_ops"
version = "0.1.0"
edition = "2021"
publish = false

[dependencies]
comfy-table = "7"
csv = "1"
slug = "0.1"
