[package]
name = "wolf_ui"
version = "0.1.0"
edition = "2021"
publish = false

[dependencies]
base64 = "=0.22.1"
reqwest = { version = "=0.13.5", default-features = false, features = ["json", "stream"] }
serde = { version = "=1.0.229", features = ["derive"] }
serde_json = "=1.0.154"
futures-util = "=0.3.34"
tokio = { version = "=1.54.1", features = ["rt-multi-thread", "macros", "time", "sync"] }
tracing = "=0.1.44"
tracing-subscriber = { version = "=0.3.23", features = ["env-filter"] }
thiserror = "=2.0.21"
dioxus = { version = "=0.7.10", features = ["router"] }
dioxus-free-icons = { version = "=0.10.0", features = ["hero-icons-solid"] }
tw_merge = "=0.1.22"
gilrs = "*"
