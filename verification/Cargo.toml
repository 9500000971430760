[package]
name = "link_board"
version = "0.1.0"
edition = "2021"
publish = false

[dependencies]
priority-queue = "*"
serde = { version = "*", features = ["derive"] }
serde_json = "*"
log = "*"
simple_logger = "*"
colored = "*"
dotenvy = "*"
futures = "*"
reqwest = { version = "*", default-features = false, features = ["json"] }
tokio = { version = "*", features = ["rt-multi-thread", "macros", "signal", "time"] }
ws2818-rgb-led-spi-driver = "*"
