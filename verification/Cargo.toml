[package]
name = "signal_wasm"
version = "0.5.0"
edition = "2021"
publish = false

[dependencies]
async-trait = "=0.1.92"
console_error_panic_hook = "=0.1.7"
getrandom = "=0.3.4"
js-sys = "=0.3.107"
rand = "=0.9.5"
subtle = "=2.6.1"
uuid = { version = "=1.29.0", features = ["v4"] }
wasm-bindgen = "=0.2.130"
web-sys = { version = "=0.3.107", features = ["console"] }
zeroize = "=1.9.1"
