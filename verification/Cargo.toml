[package]
name = "mapbench"
version = "0.1.0"
edition = "2021"
publish = false

[dependencies]
chashmap = "2.2"
clap = { version = "4", features = ["derive"] }
dashmap = "*"
flurry = "*"
fnv = "1.0"
once_cell = "1"
