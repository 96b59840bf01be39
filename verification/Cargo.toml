[package]
name = "libs"
version = "0.1.0"
edition = "2021"
publish = false

[dependencies]
anyhow = "1"
gilrs = "*"
tracing = "0.1"
tracing-subscriber = "0.3"
nalgebra = "*"
libm = "0.2"
uf-ahrs = "*"
embedded-hal-async = "1"
icm20948 = "*"
