[package]
name = "toa"
version = "0.1.0"
edition = "2021"
publish = false

[dependencies]
clap = "2"
ctrlc = "3"
futures = "0.1"
gdi32-sys = "0.2"
kernel32-sys = "0.2"
lazy_static = "1"
tokio-core = "0.1"
user32-sys = "0.2"
void = "1"
winapi = "0.2"
