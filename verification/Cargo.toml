[package]
name = "quadigit_phat"
version = "0.1.0"
edition = "2021"
publish = false

[dependencies]
chrono = "*"
ctrlc = "*"
docopt = "*"
rppal = "*"
schedule_recv = "*"
serde = { version = "*", features = ["derive"] }
