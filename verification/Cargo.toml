[package]
name = "mqtt_thread"
version = "0.1.0"
edition = "2021"
publish = false

[dependencies]
heapless = "=0.8.0"
rust-mqtt = { version = "=0.3.1", default-features = false }
anyhow = { version = "1", default-features = false }
defmt = "*"
embassy-executor = "*"
embassy-net = { version = "*", features = ["tcp", "dns", "dhcpv4", "proto-ipv4", "proto-ipv6", "medium-ethernet", "medium-ip"] }
embassy-time = "*"
esp-alloc = "*"
esp-hal = { version = "*", features = ["esp32c6", "unstable"] }
esp-hal-embassy = { version = "*", features = ["esp32c6"] }
esp-ieee802154 = { version = "*", features = ["esp32c6"] }
esp-wifi = { version = "*", features = ["esp32c6", "wifi"] }
openthread = "*"
rtt-target = { version = "*", features = ["defmt"] }
smoltcp = { version = "*", default-features = false, features = ["proto-ipv4", "proto-ipv6", "medium-ip", "socket-dns"] }
static_cell = "*"
tinyrlibc = "*"
toml-cfg = "*"
