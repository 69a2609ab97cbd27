[package]
name = "oeee-cafe-desktop"
version = "0.1.0"
edition = "2021"
publish = false

[dependencies]
serde = { version = "=1.0.229", features = ["derive"] }
serde_json = "=1.0.154"
url = "=2.5.8"
tauri = { version = "=2.12.5", default-features = false }
tauri-plugin-deep-link = "2"
tauri-plugin-window-state = "2"
rfd = { version = "=0.17.2", default-features = false, features = ["gtk3"] }
steamworks = "=0.13.1"
windows = "=0.62.2"
windows-collections = "=0.3.2"
webview2-com = "=0.39.1"
objc2 = "=0.6.5"
objc2-app-kit = { version = "=0.3.2", default-features = false, features = ["std", "NSAlert", "NSApplication", "NSResponder"] }
objc2-foundation = { version = "=0.3.2", default-features = false, features = ["std", "NSString"] }
objc2-web-kit = { version = "=0.3.2", default-features = false, features = ["std", "WKWebView", "WKUIDelegate"] }
block2 = "=0.6.2"
