[package]
name = "crates_cli"
version = "0.1.0"
edition = "2021"
publish = false

[dependencies]
serde = { version = "1", features = ["derive"] }
surf = { version = "2", default-features = false, features = ["h1-client-rustls"] }
tokio = { version = "1", features = ["macros", "rt-multi-thread"] }
