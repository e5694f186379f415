[package]
name = "cameraunit"
version = "0.1.0"
edition = "2021"
publish = false

[dependencies]
bytemuck = { version = "=1.25.2", features = ["extern_crate_alloc"] }
image = "=0.25.10"
serialimage = "=4.1.1"
fitsio = "=0.21.10"
serde = { version = "=1.0.229", features = ["derive"] }
thiserror = "=1.0.69"
log = "=0.4.34"
