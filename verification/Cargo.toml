[package]
name = "ipchannel"
version = "0.1.0"
edition = "2021"
publish = false

[dependencies]
anyhow = "1"
bincode = "1"
crossbeam = "0.8"
scoped_threadpool = "0.1"
serde = "1"
