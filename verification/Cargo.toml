[package]
name = "conway"
version = "0.1.0"
edition = "2021"
publish = false

[dependencies]
rand = "=0.8.8"
ncurses = "=5.101.0"
clap = { version = "=4.6.7", features = ["derive"] }
anyhow = "=1.0.104"
