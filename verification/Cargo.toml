[package]
name = "whispering"
version = "0.1.0"
edition = "2021"
publish = false

[dependencies]
cpal = "0.15"
enigo = "0.2"
hound = "3.5"
lazy_static = "1.4"
nix = { version = "0.29", features = ["signal"] }
serde = { version = "1", features = ["derive"] }
thiserror = "1"
tokio = { version = "1", features = ["macros", "rt-multi-thread", "time", "process"] }
tracing = "0.1"
voice_activity_detector = "0.2"
windows-sys = { version = "0.59", features = ["Win32_Foundation", "Win32_System_Threading"] }
