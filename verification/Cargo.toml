[package]
name = "spotifyexp"
version = "0.1.0"
edition = "2021"
publish = false

[dependencies]
anyhow = "1"
envy = "0.4"
reqwest = { version = "0.11", features = ["json"] }
serde = { version = "1", features = ["derive"] }
serde_derive = "1"
serde_json = "1"
structopt = "0.3"
tokio = { version = "1", features = ["macros", "rt-multi-thread"] }
