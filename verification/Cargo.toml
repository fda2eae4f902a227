[package]
name = "spotui"
version = "0.1.0"
edition = "2021"
publish = false

[dependencies]
chrono = { version = "0.4", default-features = false, features = ["std"] }
url-escape = "0.1"
image = { version = "0.24", default-features = false, features = ["jpeg", "png"] }
tui = { version = "0.19", default-features = false, features = ["crossterm"] }
crossterm = "0.25"
tokio = { version = "1", features = ["macros", "rt-multi-thread", "sync", "time"] }
warp = { version = "0.3", default-features = false }
reqwest = { version = "0.11", default-features = false, features = ["rustls-tls"] }
serde = { version = "1", features = ["derive"] }
serde_derive = "1"
serde_json = "1"
darkweb-dotenv = "=0.1.0-beta1"
