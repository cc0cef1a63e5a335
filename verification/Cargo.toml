[package]
name = "os3000_reader"
version = "0.1.0"
edition = "2021"
publish = false

[dependencies]
serialport = { version = "=4.10.1", default-features = false }
plotters = { version = "=0.3.7", default-features = false, features = ["svg_backend", "line_series", "full_palette"] }
