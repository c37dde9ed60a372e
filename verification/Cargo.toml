[package]
name = "usque-rs"
version = "0.1.0"
edition = "2021"
publish = false

[dependencies]
anyhow = "=1.0.104"
boring = "=4.22.0"
chrono = "=0.4.45"
futures = "=0.3.34"
hex = "=0.4.3"
log = "=0.4.35"
quiche = { version = "=0.24.9", default-features = false, features = ["boringssl-boring-crate"] }
reqwest = { version = "=0.12.28", default-features = false, features = ["json", "rustls-tls"] }
ring = "=0.17.14"
rtnetlink = "=0.14.1"
serde = { version = "=1.0.229", features = ["derive"] }
serde_json = "=1.0.154"
tokio = { version = "=1.54.1", features = ["rt"] }
tun = "=0.8.14"
windows-sys = { version = "=0.59.0", features = ["Win32_Foundation", "Win32_NetworkManagement_IpHelper", "Win32_NetworkManagement_Ndis", "Win32_Networking_WinSock"] }
