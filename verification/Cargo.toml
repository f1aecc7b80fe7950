[package]
name = "gamus"
version = "0.1.0"
edition = "2021"
publish = false

[dependencies]
uuid = { version = "=1.29.0", features = ["v4", "serde"] }
toml = { version = "=0.8.23", features = ["preserve_order"] }
toml_edit = "=0.22.27"
serde = { version = "=1.0.229", features = ["derive"] }
thiserror = "=1.0.69"
tokio = { version = "=1.54.1", features = ["rt-multi-thread", "fs", "macros"] }
futures = "=0.3.34"
async-trait = "=0.1.92"
once_cell = "=1.21.4"
directories = "=5.0.1"
rustfft = "=6.4.1"
apodize = "=1.0.0"
num-traits = "=0.2.19"
diesel = { version = "=2.3.14", features = ["sqlite", "r2d2"] }
diesel_migrations = "=2.3.2"
ffmpeg-next = "=7.1.0"
