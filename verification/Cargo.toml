[package]
name = "redditing_buddy"
version = "0.1.0"
edition = "2021"
publish = false

[dependencies]
chrono = "*"
clokwerk = "*"
humantime = "*"
reqwest = { version = "*", default-features = false, features = ["blocking", "json"] }
ron = "*"
serde = { version = "*", features = ["derive"] }
structopt = "*"
url = { version = "*", features = ["serde"] }
