[package]
name = "pancho"
version = "0.1.0"
edition = "2021"
publish = false

[dependencies]
goblin = "*"
lazy_static = "1"
libc = "0.2"
mach2 = "*"
rand = "0.9"
serde = { version = "1", features = ["derive"] }
serde_json = "1"
tokio = { version = "1", features = ["process", "rt", "time"] }
