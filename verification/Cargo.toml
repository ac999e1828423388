[package]
name = "renderd"
version = "0.1.0"
edition = "2021"
publish = false

[dependencies]
uuid = { version = "1", features = ["v4"] }
quinn = "0.11"
bytes = "1"
rustls = { version = "0.23", default-features = false, features = ["ring", "std"] }
prost = "0.13"
tokio = { version = "1", features = ["full"] }
clap = { version = "4", features = ["derive"] }
serde = { version = "1", features = ["derive"] }
serde_json = "1"
thiserror = "2"
tracing = "0.1"
tracing-subscriber = { version = "0.3", features = ["env-filter"] }
futures-util = "0.3"
socket2 = "0.5"
zeroize = "1"
winit = "0.30"
softbuffer = "0.4"

[dev-dependencies]
rcgen = "0.13"
