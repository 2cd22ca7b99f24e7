[package]
name = "ros_tunnel"
version = "0.1.0"
edition = "2021"
publish = false

[dependencies]
hashbrown = "*"
toposort-scc = "*"
regex = "1"
bincode = "1.3"
serde = { version = "1", features = ["derive"] }
serde_json = "1"
bytes = { version = "1", features = ["serde"] }
tokio = { version = "1", features = ["full"] }
futures = "0.3"
anyhow = "1"
log = "0.4"
colog = "*"
argh = "*"
thiserror = "*"
r2r = "*"
tokio-serial = "*"
dns-lookup = "*"
local-ip-address = "*"
nix = { version = "*", features = ["signal"] }
