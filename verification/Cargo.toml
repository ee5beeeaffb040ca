[package]
name = "wilens"
version = "0.1.0"
edition = "2021"
publish = false

[dependencies]
log = "=0.4.35"
serde = { version = "=1.0.229", features = ["derive"] }
tauri = { version = "=2.12.5", default-features = false, features = ["wry"] }
tauri-plugin-log = { version = "2", default-features = false }
objc2 = "=0.6.5"
objc2-foundation = "=0.3.2"
objc2-core-wlan = { version = "=0.3.2", default-features = false, features = ["std", "CWWiFiClient", "CWInterface", "CWNetwork"] }
objc2-core-location = { version = "=0.3.2", default-features = false, features = ["std", "CLLocationManager"] }
