[package]
name = "onion_node"
version = "0.1.0"
edition = "2021"
publish = false

[dependencies]
rmp-serde = "*"
mio = { version = "*", features = ["net", "os-poll"] }
rust-ini = "*"
getopts = "*"
stoppable_thread = "*"
