[package]
name = "desk_tools"
version = "0.1.0"
edition = "2021"
publish = false

[dependencies]
objc2 = "=0.3.0-beta.3"
iced = { version = "0.6", features = ["tokio"] }
notify-rust = "4"
