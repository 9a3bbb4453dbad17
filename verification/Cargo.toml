[package]
name = "instance_launch"
version = "0.1.0"
edition = "2021"
publish = false

[dependencies]
serde_json = "=1.0.151"
bytes = "*"
tokio = { version = "=1.53.2", features = ["macros", "rt-multi-thread"] }
warp = { version = "=0.4.3", default-features = false, features = ["server"] }
aws-config = { version = "=1.12.0", default-features = false, features = ["rt-tokio"] }
