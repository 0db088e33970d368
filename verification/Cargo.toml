[package]
name = "quic_mux"
version = "0.1.0"
edition = "2021"
publish = false

[dependencies]
bytes = "1"
glommio = "0.8"
quinn = "0.10"
quinn-proto = "0.10"
rcgen = "0.11"
rustls = "0.21"
tokio = { version = "1", features = ["rt-multi-thread"] }
