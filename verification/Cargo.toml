[package]
name = "obd2_dashboard"
version = "0.1.0"
edition = "2021"
publish = false

[dependencies]
crc = "3"
cobs = "0.2"
heapless = "0.8"
postcard = { version = "1", features = ["use-crc", "alloc"] }
serde = { version = "1", features = ["derive"] }
ron = "0.8"
embedded-graphics = "0.8"
strum = { version = "0.26", features = ["derive"] }
log = "0.4"
env_logger = "0.11"
tokio = { version = "1", features = ["rt-multi-thread", "macros", "time", "sync"] }
serial2-tokio = "0.1"
notify = "6"
notify-debouncer-full = "0.3"
