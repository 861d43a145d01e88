[package]
name = "rc_car"
version = "0.1.0"
edition = "2021"
publish = false

[dependencies]
cobs = "=0.5.1"
defmt = "=1.2.0"
embassy-executor = "=0.9.1"
embassy-net = { version = "=0.7.1", features = ["medium-ethernet", "proto-ipv4", "tcp"] }
embassy-sync = { version = "=0.7.2", features = ["std"] }
embassy-time = { version = "=0.5.1", features = ["std"] }
heapless = "=0.8.0"
num = { version = "=0.4.3", default-features = false }
picoserve = "=0.20.1"
serde = { version = "=1.0.229", default-features = false, features = ["alloc", "derive"] }
static_cell = "=2.1.1"

[dev-dependencies]
critical-section = { version = "=1.2.0", features = ["std"] }
