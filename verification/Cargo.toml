[package]
name = "zhua"
version = "0.1.0"
edition = "2021"
publish = false

[dependencies]
scraper = "*"
thiserror = "*"
syn = { version = "*", features = ["full"] }
quote = "*"
proc-macro2 = "*"
