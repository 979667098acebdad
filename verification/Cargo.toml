[package]
name = "columnar_source"
version = "0.1.0"
edition = "2021"
publish = false

[dependencies]
anyhow = "=1.0.104"
async-trait = "=0.1.92"
chrono = { version = "=0.4.39", default-features = false, features = ["std"] }
console_error_panic_hook = "0.1"
console_log = "1"
csv = "=1.4.0"
datafusion = { version = "=43.0.0", default-features = false }
flate2 = "=1.1.10"
log = "=0.4.34"
sauron = "=0.61.9"
thiserror = "=1.0.69"
tokio = { version = "=1.54.1", features = ["rt-multi-thread", "macros"] }
wasm-bindgen = "0.2"
