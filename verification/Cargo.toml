[package]
name = "rnbo-move-control"
version = "0.1.0"
edition = "2021"
publish = false

[dependencies]
chrono = "*"
unicase = "*"
regex = "*"
serde = { version = "*", features = ["derive"] }
serde_json = "*"
rosc = "*"
tokio = { version = "*", features = ["full"] }
clap = { version = "*", features = ["derive"] }
jack = "*"
ratatui = "*"
mousefood = "*"
embedded-graphics = "*"
embedded-graphics-core = "*"
futures-util = "*"
home = "*"
itertools = "*"
pad = "*"
palette = "*"
reqwest = { version = "*", default-features = false, features = ["json"] }
reqwest-websocket = "*"
rlimit = "*"
syslog = "*"
tui-widget-list = "*"
uuid = { version = "*", features = ["v4"] }
once_cell = "*"
atomic_float = "*"
psx-shm = "*"
rustix = { version = "*", features = ["shm"] }
num-traits = "*"
smlang = "*"
