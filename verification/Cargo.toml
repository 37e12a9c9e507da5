[package]
name = "watchrun"
version = "0.1.0"
edition = "2021"
publish = false

[dependencies]
inotify = "=0.11.5"
walkdir = "=2.5.0"
