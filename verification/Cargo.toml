[package]
name = "proxy"
version = "0.1.0"
edition = "2021"
publish = false

[dependencies]
oauth2 = { version = "=4.4.2", default-features = false, features = ["reqwest", "rustls-tls"] }
uuid = { version = "=1.27.0", features = ["v4"] }
warp = "=0.3.7"
tokio = { version = "1", features = ["macros", "rt-multi-thread", "sync"] }
dotenvy = "=0.15.7"
warp-reverse-proxy = "=1.0.0"
