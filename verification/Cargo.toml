[package]
name = "bulk_download"
version = "0.1.0"
edition = "2021"
publish = false

[dependencies]
async-walkdir = "=2.2.0"
camino = "=1.2.6"
clap = { version = "=4.6.7", features = ["derive"] }
color-eyre = "=0.6.5"
fs-err = { version = "=3.3.2", features = ["tokio"] }
futures = "=0.3.34"
pathdiff = { version = "=0.2.3", features = ["camino"] }
tokio = { version = "=1.54.1", features = ["macros", "rt-multi-thread"] }
trauma = "=2.3.0"
url = "=2.5.8"
