[package]
name = "betterjet"
version = "0.1.0"
edition = "2021"
publish = false

[dependencies]
btleplug = "*"
directories = "*"
futures = "*"
rmp-serde = "*"
serde = { version = "*", features = ["derive"] }
sled = "*"
tokio = { version = "*", features = ["macros", "rt-multi-thread", "sync"] }
uuid = "*"
