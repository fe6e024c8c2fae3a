[package]
name = "mcpvil"
version = "0.1.0"
edition = "2021"
publish = false

[dependencies]
image = { version = "0.25", default-features = false, features = ["png"] }
rmcp = { version = "*", features = ["server", "macros", "transport-io"] }
serde = { version = "1", features = ["derive"] }
smithay = { version = "*", default-features = false, features = ["backend_winit", "wayland_frontend", "desktop"] }
tokio = { version = "1", features = ["sync", "rt-multi-thread", "io-std"] }
tracing = "0.1"
tracing-subscriber = { version = "0.3", features = ["env-filter"] }
