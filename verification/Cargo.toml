[package]
name = "eveicongenerator"
version = "0.1.0"
edition = "2021"
publish = false

[dependencies]
md5 = "*"
image = { version = "0.25", default-features = false, features = ["png", "jpeg"] }
image-blend = "*"
serde = { version = "1", features = ["derive"] }
serde_json = "1"
zip = { version = "*", default-features = false, features = ["deflate"] }
clap = "4"
chrono = "0.4"
reqwest = { version = "*", features = ["blocking", "json"] }
