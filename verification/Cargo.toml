[package]
name = "hunter"
version = "0.1.0"
edition = "2021"
publish = false

[dependencies]
regex = "1"
clap = { version = "4", features = ["derive"] }
colored = "2"
ctrlc = "3"
fs_extra = "1"
indicatif = "0.17"
lazy_static = "1"
prettytable-rs = "0.10"
rayon = "1"
sled = "0.34"
tempfile = "3"
tokio = { version = "1", features = ["macros", "rt-multi-thread"] }
walkdir = "2"
