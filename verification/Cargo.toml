[package]
name = "spin_mutex"
version = "0.1.0"
edition = "2021"
publish = false

[dependencies]
wasm-bindgen = "=0.2.129"
js-sys = "=0.3.106"
web-sys = { version = "=0.3.106", features = ["Window", "Navigator", "WorkerNavigator", "WorkerGlobalScope", "DedicatedWorkerGlobalScope"] }

[dev-dependencies]
crossbeam-utils = "*"
