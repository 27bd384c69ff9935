[package]
name = "generic_cong_avoid"
version = "0.1.0"
edition = "2021"
publish = false

[dependencies]
clap = "*"
portus = "*"
pyo3 = "*"
simple-signal = "*"
slog = "*"
time = "*"
tracing = "*"
tracing-subscriber = "*"
