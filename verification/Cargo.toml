[package]
name = "slintwrapper"
version = "0.1.0"
edition = "2021"
publish = false

[dependencies]
slint = { version = "=1.18.1", default-features = false, features = ["compat-1-2", "std"] }
log = "=0.4.35"
env_logger = { version = "=0.11.11", default-features = false }
once_cell = "=1.21.4"
spin_on = "=0.1.1"
plotters = { version = "=0.3.7", default-features = false, features = ["bitmap_backend", "surface_series"] }
