[package]
name = "reset_registry"
version = "0.1.0"
edition = "2021"
publish = false

[dependencies]
enum_stringify = "0.6"
iced = { version = "0.13", default-features = false, features = ["advanced", "tokio"] }
num-traits = "0.2"
serde = { version = "1", features = ["derive"] }
tokio = { version = "1", features = ["macros", "rt-multi-thread"] }
zbus = { version = "5", default-features = false, features = ["tokio"] }
