[package]
name = "esp_now_gateway"
version = "0.1.0"
edition = "2021"
publish = false

[dependencies]
embassy-executor = "=0.5.1"
embassy-futures = "=0.1.2"
embassy-net = { version = "=0.4.0", features = ["tcp", "dhcpv4", "medium-ethernet"] }
embassy-sync = "=0.5.0"
embassy-time = "=0.3.2"
esp-alloc = "=0.3.0"
esp-backtrace = { version = "0.13", features = ["esp32", "panic-handler", "exception-handler", "println"] }
esp-hal = { version = "=0.17.0", features = ["esp32", "embassy", "async", "embassy-time-timg0", "embassy-executor-thread"] }
esp-println = { version = "=0.10.0", features = ["esp32", "log"] }
esp-wifi = { version = "=0.5.1", features = ["esp32", "wifi", "esp-now", "embassy-net", "async"] }
hashbrown = { version = "=0.14.5", features = ["serde"] }
heapless = "=0.8.0"
log = "=0.4.35"
rust-mqtt = { version = "=0.3.0", default-features = false, features = ["no_std"] }
serde_json = "=1.0.154"
static_cell = "=2.1.1"
