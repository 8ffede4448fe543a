[package]
name = "zecho"
version = "0.1.0"
edition = "2021"
publish = false

[dependencies]
arboard = { version = "=3.7.0", default-features = false }
cocoa = "=0.27.0"
core-graphics = "=0.25.0"
dirs = "=7.0.0"
llama-cpp-2 = { version = "=0.1.160", default-features = false }
objc = "=0.2.7"
png = "=0.17.16"
serde = { version = "=1.0.229", features = ["derive"] }
serde_json = "=1.0.154"
tokio = { version = "=1.54.1", features = ["rt-multi-thread", "time"] }
