[package]
name = "vision_assist"
version = "0.1.0"
edition = "2021"
publish = false

[dependencies]
heapless = "=0.8.0"
embassy-executor = { version = "=0.9.1", features = ["arch-std", "executor-thread"] }
embassy-rp = { version = "=0.10.0", features = ["rp2040"] }
embassy-time = "=0.5.1"
embassy-net = { version = "=0.9.1", features = ["tcp", "proto-ipv4", "medium-ethernet"] }
embedded-io-async = "=0.7.0"
defmt = "=1.2.0"
defmt-rtt = "=1.3.1"
panic-probe = "=1.0.0"
cyw43 = "=0.7.0"
cyw43-pio = "=0.10.0"
static_cell = "=2.1.1"
fixed = "=1.31.0"
