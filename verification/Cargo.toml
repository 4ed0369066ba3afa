[package]
name = "terminal_horizon"
version = "0.1.0"
edition = "2021"
publish = false

[dependencies]
crossterm = "0.28"
rand = "0.9"
ratatui = "0.29"
thiserror = "2"
