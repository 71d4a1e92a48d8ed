[package]
name = "daqmx"
version = "0.1.0"
edition = "2021"
publish = false

[dependencies]
ni-daqmx-sys = "*"
log = "*"
thiserror = "*"
