[package]
name = "duklog"
version = "0.1.0"
edition = "2021"
publish = false

[dependencies]
chrono = "=0.4.45"
dirs = "=7.0.0"
crossterm = "=0.29.0"
ratatui = "=0.30.2"
