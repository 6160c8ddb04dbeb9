[package]
name = "fleetlink_transport"
version = "0.1.0"
edition = "2021"
publish = false

[dependencies]
async-std = "1"
zerocopy = { version = "0.7", features = ["derive"] }
plotters = { version = "0.3", default-features = false, features = ["bitmap_backend", "bitmap_encoder", "line_series"] }
serde = { version = "1", features = ["derive"] }
serde_json = "1"
