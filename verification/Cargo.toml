[package]
name = "examtrainer"
version = "0.1.0"
edition = "2021"
publish = false

[dependencies]
chrono = "0.4"
colored = "2"
crossbeam = "0.8"
home = "0.5"
rand = "0.8"
serde = { version = "1", features = ["derive"] }
term_size = "0.3"
toml = "0.5"
