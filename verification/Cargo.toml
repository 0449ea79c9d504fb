[package]
name = "batch_opt"
version = "0.1.0"
edition = "2021"
publish = false

[dependencies]
futures = "=0.3.34"
rand = "=0.10.3"
tokio = { version = "=1.53.2", features = ["rt-multi-thread", "macros"] }
tpe = "=0.3.1"
