[package]
name = "svtui"
version = "0.1.0"
edition = "2021"
publish = false

[dependencies]
crossterm = "0.25"
reqwest = { version = "0.11", features = ["json"] }
serde = { version = "1", features = ["derive"] }
tokio = { version = "1", features = ["macros", "rt-multi-thread"] }
tui = "0.19"
