[package]
name = "gluster_flexvol"
version = "0.1.0"
edition = "2021"
publish = false

[dependencies]
base64 = "=0.13.1"
clap = "=2.34.0"
gfapi-sys = "=3.0.1"
gluster = "=0.7.3"
itertools = "=0.15.0"
jsonwebtoken = "=9.3.1"
libc = "=0.2.191"
rocket = { version = "=0.5.2", features = ["json"] }
serde = { version = "=1.0.229", features = ["derive"] }
serde_json = "=1.0.154"
uuid = { version = "=1.29.0", features = ["v4"] }
