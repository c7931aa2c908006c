[package]
name = "bmpvol"
version = "0.1.0"
edition = "2021"
publish = false

[dependencies]
glob = "*"
image = { version = "*", default-features = false, features = ["bmp"] }
zstd = { version = "*", features = ["zstdmt"] }
clap = { version = "*", features = ["derive"] }
clio = { version = "*", features = ["clap-parse"] }
console = "*"
indicatif = "*"

[dev-dependencies]
tempfile = "*"
