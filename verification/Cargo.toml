[package]
name = "realworld"
version = "0.1.0"
edition = "2021"
publish = false

[dependencies]
num-integer = "=0.1.47"
seed = "=0.5.1"
serde = { version = "=1.0.229", features = ["derive"] }
serde_json = "=1.0.154"
indexmap = { version = "=1.9.3", features = ["serde-1"] }
futures = "=0.3.34"
wasm-bindgen = "=0.2.92"
wasm-bindgen-futures = "=0.4.42"
js-sys = "=0.3.69"
web-sys = "=0.3.69"
