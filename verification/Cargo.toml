[package]
name = "resident"
version = "0.1.0"
edition = "2021"
publish = false

[dependencies]
tera = { version = "1", default-features = false }
image = { version = "0.25", default-features = false, features = ["png"] }
serde = { version = "1", features = ["derive"] }
serde_json = "1"
tokio = { version = "1", features = ["full"] }
axum = "0.8"
tower = "0.5"
tower-http = { version = "0.6", features = ["cors"] }
clap = { version = "4", features = ["derive"] }
env_logger = "0.10"
log = "0.4"
chrono = { version = "0.4", features = ["serde"] }
anyhow = "1"
webbrowser = "1"
winit = "0.30"
tray-icon = "*"
gtk = "0.18"
indoc = "2"
strum = { version = "0.26", features = ["derive"] }
wasm-bindgen = "0.2"
js-sys = "0.3"
wasm-timer = "0.2"
extism-pdk = "1"
winapi = { version = "0.3", features = ["consoleapi", "wincon"] }
