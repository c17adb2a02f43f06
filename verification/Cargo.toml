[package]
name = "browser_shell"
version = "0.1.0"
edition = "2021"
publish = false

[dependencies]
base64 = "=0.22.1"
chromiumoxide = { version = "*", default-features = false, features = ["tokio-runtime"] }
clap = { version = "4", default-features = false, features = ["derive", "std", "help", "usage", "error-context"] }
futures = "0.3"
image = { version = "=0.24.9", default-features = false, features = ["jpeg"] }
serde_json = "=1.0.154"
tiny_http = "0.12"
tokio = { version = "1", features = ["rt-multi-thread", "time"] }
url = "=2.5.8"
urlencoding = "=2.1.3"
