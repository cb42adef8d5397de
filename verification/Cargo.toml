[package]
name = "riemann_core"
version = "0.1.0"
edition = "2021"
publish = false

[dependencies]
image = "*"
once_cell = "*"
pdfium-render = "*"
