[package]
name = "microbit-pomodoro"
version = "0.1.0"
edition = "2021"
publish = false

[dependencies]
defmt = "=1.2.0"
embassy-executor = "=0.9.1"
embassy-futures = "=0.1.2"
embassy-nrf = { version = "=0.11.0", features = ["nrf52833", "gpiote", "time-driver-rtc1"] }
embassy-sync = "=0.8.0"
embassy-time = "=0.5.1"
embedded-hal = "=1.0.0"
embedded-storage-async = "=0.4.2"
heapless = "=0.8.0"
postcard = { version = "=1.1.3", default-features = false }
serde = { version = "=1.0.229", default-features = false, features = ["derive"] }
