[package]
name = "thermostat"
version = "0.1.0"
edition = "2021"
publish = false

[dependencies]
cyw43 = "=0.7.0"
cyw43-pio = "=0.10.0"
defmt = "=1.2.0"
defmt-rtt = "=1.3.1"
embassy-executor = { version = "=0.9.1", features = ["arch-std", "executor-thread"] }
embassy-net = { version = "=0.9.1", features = ["tcp", "dhcpv4", "proto-ipv4", "medium-ethernet"] }
embassy-rp = { version = "=0.10.0", features = ["rp2040"] }
embassy-sync = "=0.8.0"
embassy-time = { version = "=0.5.1", features = ["std"] }
embedded-cli = "=0.2.1"
embedded-io = "=0.6.1"
embedded-io-async = "=0.7.0"
fixed = "=1.31.0"
heapless = "=0.9.3"
itoa = "=1.0.18"
panic-probe = "=1.0.0"
pio-proc = "=0.3.0"
static_cell = "=2.1.1"
