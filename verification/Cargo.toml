[package]
name = "bvar"
version = "0.1.0"
edition = "2021"
publish = false

[dependencies]
dashmap = "*"
log = "*"
once_cell = "*"
parking_lot = "*"
thread_local = "*"
