[package]
name = "raw_glue"
version = "0.1.0"
edition = "2021"
publish = false

[dependencies]
chrono = "0.4"
clap = { version = "4", features = ["derive"] }
libc = "0.2"
rayon = "1"
tempfile = "3"
