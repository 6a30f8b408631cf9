[package]
name = "pp_gain"
version = "0.1.0"
edition = "2021"
publish = false

[dependencies]
color-eyre = "*"
demand = "*"
dotenvy = "*"
reqwest = { version = "*", default-features = false, features = ["rustls-tls"] }
rosu-pp = "*"
rosu-v2 = "*"
tokio = { version = "*", features = ["macros", "rt-multi-thread"] }
