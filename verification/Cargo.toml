[package]
name = "simple_blockchain"
version = "0.1.0"
edition = "2021"
publish = false

[dependencies]
sha2 = "0.10"
rand = "0.8"
rayon = "1"
serde = { version = "1", features = ["derive"] }
serde_json = "1"
tokio = { version = "1", features = ["macros", "rt-multi-thread", "sync"] }
dialoguer = "0.10"
clearscreen = "1"
derive_more = "0.99"
libp2p = { version = "0.40", default-features = false, features = ["floodsub", "mdns", "mplex", "noise", "tcp-tokio"] }
