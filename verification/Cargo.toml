[package]
name = "esp32_wifi"
version = "0.1.0"
edition = "2021"
publish = false

[dependencies]
heapless = "=0.8.0"
embassy-executor = "0.7"
embassy-net = { version = "0.6", features = ["tcp", "dhcpv4", "proto-ipv4", "medium-ethernet"] }
embassy-time = "0.4"
embedded-io-async = "0.6"
esp-alloc = "0.6"
esp-backtrace = { version = "0.15", features = ["panic-handler", "println"] }
esp-hal = "0.23"
esp-hal-embassy = "0.6"
esp-println = { version = "0.13", features = ["log"] }
esp-wifi = { version = "=0.12.0", features = ["wifi"] }
log = "0.4"
static_cell = "2"
