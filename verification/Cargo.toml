[package]
name = "desktop_node"
version = "0.1.0"
edition = "2021"
publish = false

[dependencies]
names = { version = "=0.14.0", default-features = false }
tokio = { version = "=1.54.1", features = ["rt"] }
anyhow = "=1.0.104"
dotenv = "=0.15.0"
fdlimit = "=0.2.1"
log = "=0.4.34"
sp-core = "=43.0.0"
sp-panic-handler = "=13.0.2"
serde_json = "1"
