[package]
name = "dotmatrix"
version = "0.1.0"
edition = "2021"
publish = false

[dependencies]
cyw43 = "=0.1.0"
cyw43-pio = "=0.1.0"
defmt-rtt = "=0.4.2"
embassy-executor = { version = "=0.5.1", features = ["arch-std", "executor-thread", "integrated-timers"] }
embassy-futures = "=0.1.2"
embassy-net = { version = "=0.4.0", features = ["tcp", "proto-ipv4", "proto-ipv6", "medium-ethernet"] }
embassy-rp = { version = "=0.1.0", features = ["time-driver"] }
embassy-sync = "=0.5.0"
embassy-time = "=0.3.2"
embassy-usb = "=0.1.0"
embedded-io-async = "=0.6.1"
heapless = "=0.8.0"
static_cell = "=2.1.1"
