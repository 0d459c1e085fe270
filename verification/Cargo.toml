[package]
name = "lunara"
version = "0.1.0"
edition = "2021"
publish = false

[dependencies]
base64 = "0.22"
serde = { version = "1", features = ["derive"] }
serde_yml = "0.0.12"
tokio = { version = "1", features = ["time", "rt", "macros"] }
enigo = { version = "0.2", features = ["serde"] }
gilrs = { version = "0.11", default-features = false, features = ["serde-serialize"] }
