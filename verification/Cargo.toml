[package]
name = "the_blockheads_tools_lib"
version = "0.1.0"
edition = "2021"
publish = false

[dependencies]
anyhow = "=1.0.104"
enet = "=0.3.0"
flate2 = "=1.1.10"
heed = "=0.22.1"
plist = "=1.10.3"
serde = { version = "=1.0.229", features = ["derive"] }
thiserror = "=2.0.21"
