[package]
name = "gl_test"
version = "0.1.0"
edition = "2021"
publish = false

[dependencies]
bitflags = "1.3"
env_logger = "0.9"
gl = "0.14"
glutin = "0.29"
log = "0.4"
thiserror = "1"
