[package]
name = "connect_four"
version = "0.1.0"
edition = "2021"
publish = false

[dependencies]
rand = "0.8"
tokio = { version = "1", features = ["sync", "rt", "rt-multi-thread", "net", "macros", "io-util"] }
futures = "0.3"
yew = { version = "0.20", features = ["csr"] }
yew-router = "0.17"
gloo = "0.8"
wasm-bindgen = "0.2"
wasm-bindgen-futures = "0.4"
tokio-tungstenite = "0.18"
tokio-rustls = "0.23"
rustls-pemfile = "1"
argh = "0.1"
