[package]
name = "rdocker"
version = "0.1.0"
edition = "2021"
publish = false

[dependencies]
libc = "0.2"
nix = "0.19"
structopt = "0.3"
tar = "0.4"
uuid = { version = "0.8", features = ["v4"] }
