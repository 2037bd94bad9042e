[package]
name = "algo_run"
version = "0.1.0"
edition = "2021"
publish = false

[dependencies]
algorithmia = "=1.4.0"
docopt = "=1.1.1"
rustc-serialize = "=0.3.25"
serde = { version = "1", features = ["derive"] }
