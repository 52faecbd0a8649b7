[package]
name = "oxikcde"
version = "0.1.0"
edition = "2021"
publish = false

[dependencies]
bitflags = "=2.13.2"
clap = { version = "=4.6.7", features = ["cargo", "derive"] }
cli-log = "=2.1.1"
color-eyre = "=0.6.5"
colors-transform = "=0.2.11"
crossterm = { version = "=0.28.1", features = ["event-stream"] }
dirs = "=7.0.0"
eyre = "=0.6.14"
figment = { version = "=0.10.19", features = ["toml"] }
futures = "=0.3.34"
image = { version = "=0.25.10", default-features = false, features = ["gif", "jpeg", "png"] }
isahc = "=1.8.3"
open = "=5.4.5"
rand = "=0.8.8"
ratatui = { version = "=0.29.0", features = ["unstable-rendered-line-info"] }
ratatui-image = "=4.2.0"
serde = { version = "=1.0.229", features = ["derive"] }
serde_json = "=1.0.154"
strum = { version = "=0.26.3", features = ["derive"] }
tap = "=1.0.1"
tokio = { version = "=1.54.1", features = ["macros", "rt-multi-thread", "time"] }
xterm-query = "=0.6.1"
