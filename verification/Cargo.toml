[package]
name = "modsync_metrohash"
version = "0.1.0"
edition = "2021"
publish = false

[dependencies]
metrohash = "*"
js-sys = "*"
wasm-bindgen = "*"
