[package]
name = "hangdetect"
version = "0.1.0"
edition = "2021"
publish = false

[dependencies]
anyhow = "1"
cpp_demangle = "0.5"
env_logger = "0.11"
libc = "0.2"
log = "0.4"
object-pool = "*"
once_cell = "1"
serde = { version = "1", features = ["derive"] }
serde_json = "1"
simple-logging = "*"
threadpool = "1"
