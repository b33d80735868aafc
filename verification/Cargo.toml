[package]
name = "clash_nyanpasu"
version = "0.1.0"
edition = "2021"
publish = false

[dependencies]
anyhow = "1"
tokio = { version = "1", features = ["rt", "rt-multi-thread", "process", "time", "sync", "macros"] }
runas = "1"
whoami = "1"
serde = { version = "1", features = ["derive"] }
serde_json = "1"
serde_yaml = "0.9"
tracing = "0.1"
log = "0.4"
once_cell = "1"
reqwest = { version = "0.12", default-features = false }
csscolorparser = "0.7"
usvg = "0.45"
resvg = "0.45"
