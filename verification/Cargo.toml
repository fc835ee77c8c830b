[package]
name = "noodles_grid"
version = "0.1.0"
edition = "2021"
publish = false

[dependencies]
anyhow = "1"
bytemuck = "1"
capnp = "*"
ciborium = "0.2"
clap = { version = "4", features = ["derive"] }
env_logger = "*"
hostname = "*"
image = { version = "0.25", default-features = false, features = ["png"] }
itertools = "*"
local-ip-address = "*"
log = "0.4"
mdns-sd = "*"
nalgebra = "*"
nalgebra-glm = "*"
num-traits = "0.2"
plotters = { version = "0.3", default-features = false, features = ["bitmap_backend", "line_series", "ab_glyph"] }
tokio = { version = "1", features = ["full"] }
