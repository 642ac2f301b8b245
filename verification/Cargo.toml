[package]
name = "oklch_theme"
version = "0.1.0"
edition = "2021"
publish = false

[dependencies]
palette = "=0.7.7"
bytemuck = "*"
rustc_apfloat = "*"
clap = { version = "=4.6.7", features = ["derive"] }
colored = "=3.1.1"
