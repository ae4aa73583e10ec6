[package]
name = "wolfchess"
version = "0.1.0"
edition = "2021"
publish = false

[dependencies]
chess = "=3.2.0"
tokio = { version = "=1.53.2", features = ["sync", "rt-multi-thread", "io-util", "io-std", "time", "macros"] }
vampirc-uci = { version = "=0.11.1", features = ["chess"] }
