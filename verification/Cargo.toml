[package]
name = "xiaozhi-rs"
version = "0.1.0"
edition = "2021"
publish = false

[dependencies]
aes = "*"
anyhow = "1"
cpal = "*"
ctr = "*"
futures-util = "0.3"
hmac = "*"
http = "1"
libloading = "*"
log = "0.4"
opusic-sys = "*"
reqwest = { version = "0.12", default-features = false, features = ["json", "rustls-tls-webpki-roots-no-provider"] }
rtrb = "*"
rubato = "*"
rumqttc = { version = "*", default-features = false, features = ["use-rustls-no-provider"] }
rustls = { version = "0.23", default-features = false, features = ["ring", "std", "tls12"] }
serde = { version = "1", features = ["derive"] }
serde_json = "1"
sha2 = "*"
thiserror = "2"
tokio = { version = "1", features = ["rt-multi-thread", "macros", "net", "sync", "time", "signal"] }
tokio-tungstenite = { version = "*", default-features = false, features = ["connect", "handshake", "rustls-tls-webpki-roots"] }
tokio-util = "0.7"
tungstenite = { version = "*", default-features = false, features = ["handshake"] }
uuid = { version = "1", features = ["v4"] }
webpki-roots = "*"
windows-sys = { version = "*", features = ["Win32_Foundation", "Win32_System_Diagnostics_Debug", "Win32_System_Kernel", "Win32_System_LibraryLoader"] }
