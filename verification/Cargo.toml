[package]
name = "soundcloud_dl"
version = "0.1.0"
edition = "2021"
publish = false

[dependencies]
id3 = "*"
reqwest = { version = "*", features = ["json"] }
tokio = { version = "*", features = ["macros", "rt-multi-thread"] }
serde = { version = "*", features = ["derive"] }
clap = { version = "*", features = ["derive"] }
dialoguer = "*"
directories = "*"
indicatif = "*"
regex = "*"
thiserror = "*"
human-panic = "*"
